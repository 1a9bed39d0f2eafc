use metis_agent::processing::{
    action_folder_name, after_probe, annotate_description, capture_details, capture_file_name,
    extract_timestamp_from_filename, processing_order, split_lines, split_on,
    summarize_recording_internal, CaptureDetails, FolderProbe,
};
use metis_agent::recording::{CaptureLabel, CaptureRequest};
use metis_agent::text::{parse_i32, parse_u64, push_decimal, trim};

fn chars(s: &str) -> Vec<char> {
    s.chars().collect()
}

fn texts(v: Vec<Vec<char>>) -> Vec<String> {
    v.into_iter().map(|w| w.into_iter().collect()).collect()
}

fn details(action: &str, x: &str, y: &str) -> CaptureDetails {
    CaptureDetails { action: action.to_string(), mouse_x: x.to_string(), mouse_y: y.to_string() }
}

#[test]
fn timestamp_is_read_from_the_file_name() {
    assert_eq!(
        extract_timestamp_from_filename("raw_1708617600_press_folder_action_0_mouse_10_20.png"),
        Some(1708617600)
    );
    assert_eq!(extract_timestamp_from_filename("raw_7_Init_folder_action_0.png"), Some(7));
    assert_eq!(extract_timestamp_from_filename("raw_x_Init.png"), None);
    assert_eq!(extract_timestamp_from_filename("raw_12_Init.jpg"), None);
    assert_eq!(extract_timestamp_from_filename("raw_99999999999999999999999_a.png"), None);
    assert_eq!(extract_timestamp_from_filename("raw_18446744073709551615_a.png"), Some(u64::MAX));
    assert_eq!(extract_timestamp_from_filename(""), None);
}

#[test]
fn numbers_are_parsed_as_the_standard_library_does() {
    for text in ["0", "+0", "-0", "12", "+12", "-12", "", "+", "-", " 1", "1 ", "1_0", "007",
        "2147483647", "2147483648", "-2147483648", "-2147483649", "18446744073709551615",
        "18446744073709551616", "99999999999999999999999", "١٢"]
    {
        assert_eq!(parse_i32(&chars(text)), text.parse::<i32>().ok(), "i32 of {:?}", text);
        assert_eq!(parse_u64(&chars(text)), text.parse::<u64>().ok(), "u64 of {:?}", text);
    }
}

#[test]
fn decimal_digits_are_written_as_the_standard_library_does() {
    for n in [0u64, 1, 9, 10, 11, 99, 100, 101, 12345, u64::MAX] {
        let mut out = vec!['#'];
        push_decimal(n, &mut out);
        let text: String = out.into_iter().collect();
        assert_eq!(text, format!("#{}", n));
    }
}

#[test]
fn trimming_agrees_with_the_standard_library() {
    for text in ["", " ", "a", " a", "a ", "  a b  ", "\t\na\u{a0}", "\u{3000}x\u{2003}", "\u{200b}x", "\u{85}y\u{1680}"] {
        let trimmed: String = trim(&chars(text)).into_iter().collect();
        assert_eq!(trimmed, text.trim(), "trim of {:?}", text);
    }
}

#[test]
fn splitting_agrees_with_the_standard_library() {
    for text in ["", "_", "a", "a_b", "_a", "a_", "a__b", "raw_1_press_folder_action_0_mouse_3_4"] {
        let expected: Vec<String> = text.split('_').map(|s| s.to_string()).collect();
        assert_eq!(texts(split_on(&chars(text), '_')), expected, "split of {:?}", text);
    }
    for text in ["", "\n", "a", "a\n", "a\nb", "a\r\nb", "a\r\nb\r", "\r\n", "a\n\nb\n", "a\rb\n", "\n\n"] {
        let expected: Vec<String> = text.lines().map(|s| s.to_string()).collect();
        assert_eq!(texts(split_lines(&chars(text))), expected, "lines of {:?}", text);
    }
}

#[test]
fn details_are_read_from_the_stem() {
    assert_eq!(
        capture_details("raw_1708617600_press_folder_action_0_mouse_10_20"),
        details("press", "10", "20")
    );
    assert_eq!(capture_details("raw_5_Init_folder_action_2"), details("Init", "0", "0"));
    assert_eq!(capture_details("raw_5"), details("Unknown", "0", "0"));
    assert_eq!(capture_details(""), details("Unknown", "0", "0"));
    assert_eq!(capture_details("raw_5_scroll_mouse_7"), details("scroll", "0", "0"));
    assert_eq!(capture_details("raw_5_scroll_mouse_-7_8_mouse_1_2"), details("scroll", "-7", "8"));
}

#[test]
fn description_gets_its_columns() {
    let d = details("press", "10", "20");
    assert_eq!(
        annotate_description(Some("id,class\n1,Button\n2,Text\n"), &d, 3),
        "id,class,action,mouse_x,mouse_y,action_number\n1,Button,press,10,20,3\n2,Text,press,10,20,3"
    );
    assert_eq!(
        annotate_description(Some("id,class\r\n1,Button"), &d, 12),
        "id,class,action,mouse_x,mouse_y,action_number\n1,Button,press,10,20,12"
    );
    assert_eq!(
        annotate_description(Some("id,class"), &d, 0),
        "id,class,action,mouse_x,mouse_y,action_number"
    );
    assert_eq!(
        annotate_description(Some(""), &d, 0),
        "type,bbox,interactivity,content,source,action,mouse_x,mouse_y,action_number"
    );
    assert_eq!(
        annotate_description(None, &d, 4),
        "type,bbox,interactivity,content,source,action,mouse_x,mouse_y,action_number\n,,,,press,10,20,4"
    );
}

#[test]
fn file_name_is_read_back() {
    let request = CaptureRequest { label: CaptureLabel::Press, pointer: Some((-10, 20)) };
    let name = capture_file_name(1708617600, request, "action_3");
    assert_eq!(name, "raw_1708617600_press_folder_action_3_mouse_-10_20.png");
    assert_eq!(extract_timestamp_from_filename(&name), Some(1708617600));
    assert_eq!(capture_details(name.trim_end_matches(".png")), details("press", "-10", "20"));
    let plain = CaptureRequest { label: CaptureLabel::KeyboardIdle, pointer: None };
    assert_eq!(capture_file_name(0, plain, "action_0"), "raw_0_idle-detected_folder_action_0.png");
    let far = CaptureRequest { label: CaptureLabel::Init, pointer: Some((i32::MIN, i32::MAX)) };
    assert_eq!(
        capture_file_name(u64::MAX, far, ""),
        "raw_18446744073709551615_Init_folder__mouse_-2147483648_2147483647.png"
    );
}

#[test]
fn summary_names_the_folder() {
    assert_eq!(summarize_recording_internal("/tmp/shots"), "Summary for recording in /tmp/shots");
}

#[test]
fn captures_are_processed_oldest_first() {
    assert_eq!(processing_order(&vec![]), Vec::<usize>::new());
    assert_eq!(processing_order(&vec![5]), vec![0]);
    assert_eq!(processing_order(&vec![30, 10, 20]), vec![1, 2, 0]);
    assert_eq!(processing_order(&vec![7, 7, 3, 7, 3]), vec![2, 4, 0, 1, 3]);
    assert_eq!(processing_order(&vec![1, 2, 3, 4]), vec![0, 1, 2, 3]);
    assert_eq!(processing_order(&vec![u64::MAX, 0]), vec![1, 0]);
    let stamps = vec![9u64, 4, 4, 8, 1, 9, 0, 4];
    let mut expected: Vec<usize> = (0..stamps.len()).collect();
    expected.sort_by_key(|&at| stamps[at]);
    assert_eq!(processing_order(&stamps), expected);
}

#[test]
fn free_action_folder_is_searched_up_to_the_last_number() {
    assert_eq!(after_probe(0, false), FolderProbe::Take(0));
    assert_eq!(after_probe(0, true), FolderProbe::Probe(1));
    assert_eq!(after_probe(9999, true), FolderProbe::Probe(10000));
    assert_eq!(after_probe(10000, false), FolderProbe::Take(10000));
    assert_eq!(after_probe(10000, true), FolderProbe::GiveUp);
    assert_eq!(after_probe(u32::MAX, true), FolderProbe::GiveUp);
    assert_eq!(action_folder_name(0), "action_0");
    assert_eq!(action_folder_name(10000), "action_10000");
}
