use metis_agent::action::{
    do_action, input_ops, parse_action, parse_coordinate, parse_key, ActionCommand, ActionError,
    ActionStep, Direction, InputOp, ParsedKey, SymbolicKey,
};

#[test]
fn click_line_yields_click_command() {
    assert_eq!(parse_action("click:(125,265)"), Ok(ActionCommand::Click(125, 265)));
}

#[test]
fn type_line_strips_quotes() {
    assert_eq!(
        parse_action("type:'hello world'"),
        Ok(ActionCommand::Type("hello world".to_string()))
    );
}

#[test]
fn scroll_line_keeps_sign() {
    assert_eq!(parse_action("scroll:-5"), Ok(ActionCommand::Scroll(-5)));
    assert_eq!(parse_action("scroll:15"), Ok(ActionCommand::Scroll(15)));
    assert_eq!(parse_action("scroll:+7"), Ok(ActionCommand::Scroll(7)));
}

#[test]
fn done_line_carries_message() {
    assert_eq!(
        parse_action("done:'Login successful.'"),
        Ok(ActionCommand::Done("Login successful.".to_string()))
    );
    assert_eq!(
        do_action("done:'Login successful.'"),
        Ok(ActionStep::Finish("Login successful.".to_string()))
    );
}

#[test]
fn done_without_quotes_keeps_trimmed_payload() {
    assert_eq!(parse_action("done:  all set "), Ok(ActionCommand::Done("all set".to_string())));
    assert_eq!(parse_action("done:"), Ok(ActionCommand::Done(String::new())));
    assert_eq!(parse_action("done:''"), Ok(ActionCommand::Done(String::new())));
}

#[test]
fn tap_down_rejects_unknown_multi_character_key() {
    assert_eq!(parse_action("tap_down:'ab'"), Err(ActionError::UnknownKey));
    assert_eq!(do_action("tap_down:'ab'"), Err(ActionError::UnknownKey));
}

#[test]
fn tap_down_and_tap_up_reject_literal_characters() {
    assert_eq!(parse_action("tap_down:'a'"), Err(ActionError::LiteralKeyHeld));
    assert_eq!(parse_action("tap_up:'a'"), Err(ActionError::LiteralKeyHeld));
    assert_eq!(parse_action("tap_down:'Shift'"), Ok(ActionCommand::TapDown(SymbolicKey::Shift)));
    assert_eq!(parse_action("tap_up:'shift'"), Ok(ActionCommand::TapUp(SymbolicKey::Shift)));
}

#[test]
fn tap_takes_names_and_single_characters() {
    assert_eq!(parse_action("tap:'a'"), Ok(ActionCommand::Tap(ParsedKey::Char('a'))));
    assert_eq!(parse_action("tap:'Enter'"), Ok(ActionCommand::Tap(ParsedKey::Key(SymbolicKey::Return))));
    assert_eq!(parse_action("tap: 'F5' "), Ok(ActionCommand::Tap(ParsedKey::Key(SymbolicKey::F5))));
}

#[test]
fn key_names_ignore_case_and_have_aliases() {
    assert_eq!(parse_key("'ctrl'"), Ok(ParsedKey::Key(SymbolicKey::Control)));
    assert_eq!(parse_key("'control'"), Ok(ParsedKey::Key(SymbolicKey::Control)));
    assert_eq!(parse_key("'Control'"), Ok(ParsedKey::Key(SymbolicKey::Control)));
    assert_eq!(parse_key("'CONTROL'"), Ok(ParsedKey::Key(SymbolicKey::Control)));
    assert_eq!(parse_key("'esc'"), Ok(ParsedKey::Key(SymbolicKey::Escape)));
    assert_eq!(parse_key("'cmd'"), Ok(ParsedKey::Key(SymbolicKey::Meta)));
    assert_eq!(parse_key("'win'"), Ok(ParsedKey::Key(SymbolicKey::Meta)));
    assert_eq!(parse_key("'f12'"), Ok(ParsedKey::Key(SymbolicKey::F12)));
    assert_eq!(parse_key("' '"), Ok(ParsedKey::Key(SymbolicKey::Space)));
    assert_eq!(parse_key("'PageDown'"), Ok(ParsedKey::Key(SymbolicKey::PageDown)));
    assert_eq!(parse_key("'option'"), Ok(ParsedKey::Key(SymbolicKey::OptionKey)));
}

#[test]
fn key_payload_must_be_quoted() {
    assert_eq!(parse_key("a"), Err(ActionError::InvalidKeyFormat));
    assert_eq!(parse_key("''"), Err(ActionError::InvalidKeyFormat));
    assert_eq!(parse_key("'"), Err(ActionError::InvalidKeyFormat));
    assert_eq!(parse_key("'a"), Err(ActionError::InvalidKeyFormat));
    assert_eq!(parse_key(""), Err(ActionError::InvalidKeyFormat));
    assert_eq!(parse_key("'ab'"), Err(ActionError::UnknownKey));
    assert_eq!(parse_key("'Z'"), Ok(ParsedKey::Char('Z')));
    assert_eq!(parse_key("'é'"), Ok(ParsedKey::Char('é')));
}

#[test]
fn coordinates_allow_space_and_sign() {
    assert_eq!(parse_coordinate("(125,265)"), Ok((125, 265)));
    assert_eq!(parse_coordinate("( -3 , 40 )"), Ok((-3, 40)));
    assert_eq!(parse_coordinate("at (7,8) please"), Ok((7, 8)));
    assert_eq!(parse_coordinate("(0,-0)"), Ok((0, 0)));
}

#[test]
fn malformed_coordinates_are_rejected() {
    assert_eq!(parse_coordinate("125,265"), Err(ActionError::InvalidCoordinate));
    assert_eq!(parse_coordinate("(a,b)"), Err(ActionError::InvalidCoordinate));
    assert_eq!(parse_coordinate("(1;2)"), Err(ActionError::InvalidCoordinate));
    assert_eq!(parse_coordinate(""), Err(ActionError::InvalidCoordinate));
    assert_eq!(parse_coordinate("(99999999999,1)"), Err(ActionError::InvalidNumber));
    assert_eq!(parse_coordinate("(2147483647,-2147483648)"), Ok((2147483647, -2147483648)));
    assert_eq!(parse_coordinate("(2147483648,0)"), Err(ActionError::InvalidNumber));
}

#[test]
fn line_without_separator_or_with_unknown_tag_fails() {
    assert_eq!(parse_action("click"), Err(ActionError::MissingSeparator));
    assert_eq!(parse_action(""), Err(ActionError::MissingSeparator));
    assert_eq!(parse_action("jump:(1,2)"), Err(ActionError::UnknownTag));
    assert_eq!(parse_action("Click:(1,2)"), Err(ActionError::UnknownTag));
    assert_eq!(parse_action(" click:(1,2)"), Err(ActionError::UnknownTag));
}

#[test]
fn only_the_first_colon_splits() {
    assert_eq!(parse_action("type:'a:b'"), Ok(ActionCommand::Type("a:b".to_string())));
    assert_eq!(parse_action("done:'x: y'"), Ok(ActionCommand::Done("x: y".to_string())));
}

#[test]
fn scroll_and_type_payloads_are_checked() {
    assert_eq!(parse_action("scroll:five"), Err(ActionError::InvalidScroll));
    assert_eq!(parse_action("scroll: 5"), Err(ActionError::InvalidScroll));
    assert_eq!(parse_action("scroll:"), Err(ActionError::InvalidScroll));
    assert_eq!(parse_action("scroll:-"), Err(ActionError::InvalidScroll));
    assert_eq!(parse_action("scroll:2147483648"), Err(ActionError::InvalidScroll));
    assert_eq!(parse_action("scroll:-2147483648"), Ok(ActionCommand::Scroll(i32::MIN)));
    assert_eq!(parse_action("type:hello"), Err(ActionError::InvalidText));
    assert_eq!(parse_action("type:'"), Err(ActionError::InvalidText));
    assert_eq!(parse_action("type:''"), Ok(ActionCommand::Type(String::new())));
    assert_eq!(parse_action("type: 'x' "), Ok(ActionCommand::Type("x".to_string())));
}

#[test]
fn click_up_ignores_its_payload() {
    assert_eq!(parse_action("click_up:nil"), Ok(ActionCommand::ClickUp));
    assert_eq!(parse_action("click_up:whatever"), Ok(ActionCommand::ClickUp));
}

#[test]
fn commands_lay_out_their_operations() {
    assert_eq!(
        input_ops(&ActionCommand::Click(1, 2)),
        vec![InputOp::MoveTo(1, 2), InputOp::Button(Direction::Click)]
    );
    assert_eq!(
        input_ops(&ActionCommand::ClickDown(3, 4)),
        vec![InputOp::MoveTo(3, 4), InputOp::Button(Direction::Press)]
    );
    assert_eq!(input_ops(&ActionCommand::ClickUp), vec![InputOp::Button(Direction::Release)]);
    assert_eq!(input_ops(&ActionCommand::Drag(5, 6)), vec![InputOp::MoveTo(5, 6)]);
    assert_eq!(
        input_ops(&ActionCommand::Tap(ParsedKey::Key(SymbolicKey::Tab))),
        vec![InputOp::Key(SymbolicKey::Tab, Direction::Click)]
    );
    assert_eq!(
        input_ops(&ActionCommand::Tap(ParsedKey::Char('x'))),
        vec![InputOp::Text("x".to_string())]
    );
    assert_eq!(
        input_ops(&ActionCommand::TapDown(SymbolicKey::Alt)),
        vec![InputOp::Key(SymbolicKey::Alt, Direction::Press)]
    );
    assert_eq!(
        input_ops(&ActionCommand::TapUp(SymbolicKey::Alt)),
        vec![InputOp::Key(SymbolicKey::Alt, Direction::Release)]
    );
    assert_eq!(input_ops(&ActionCommand::Scroll(-2)), vec![InputOp::Scroll(-2)]);
    assert_eq!(
        input_ops(&ActionCommand::Type("hi".to_string())),
        vec![InputOp::Text("hi".to_string())]
    );
    assert_eq!(input_ops(&ActionCommand::Done("ok".to_string())), vec![]);
}

#[test]
fn do_action_goes_from_line_to_operations() {
    assert_eq!(
        do_action("click:(125,265)"),
        Ok(ActionStep::Perform(vec![InputOp::MoveTo(125, 265), InputOp::Button(Direction::Click)]))
    );
    assert_eq!(do_action("drag:(x)"), Err(ActionError::InvalidCoordinate));
}
