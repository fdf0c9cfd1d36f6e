use patchwork_search::human_input::{
    action_labels, choose_normal_action, is_exit_request, is_skip_request, normalize_input,
    parse_position_input, parse_transformation_input, position_index, quarter_turns, transformation_valid, NormalActionChoice, PositionInputError,
    Rotation, TransformationInputError,
};
use patchwork_search::upi::{
    command_of_text, join_authors, reply_to_command, upi_command, upi_reply, UpiCommand, UpiReply,
};

fn sent(reply: UpiReply) -> String {
    match reply {
        UpiReply::Send(text) => text,
        UpiReply::Quit => panic!("expected a text"),
    }
}

#[test]
fn upi_commands() {
    assert_eq!(upi_command("upi"), UpiCommand::Upi);
    assert_eq!(upi_command("  ISREADY now \n"), UpiCommand::IsReady);
    assert_eq!(upi_command("Quit"), UpiCommand::Quit);
    assert_eq!(upi_command("go depth 3"), UpiCommand::Unknown);
    assert_eq!(upi_command(""), UpiCommand::Unknown);
    assert_eq!(upi_command("   "), UpiCommand::Unknown);
    assert_eq!(upi_command("upiok"), UpiCommand::Unknown);
}

#[test]
fn upi_replies() {
    assert_eq!(
        sent(upi_reply("upi", "upi", "Ada:Bob")),
        "id name upi\nid author Ada & Bob\nupiok\n"
    );
    assert_eq!(sent(upi_reply("isready", "upi", "")), "readyok\n");
    assert_eq!(sent(upi_reply("stop", "upi", "")), "unknown command\n");
    assert_eq!(upi_reply(" quit ", "upi", ""), UpiReply::Quit);
}

#[test]
fn normalized_commands_are_answered() {
    assert_eq!(command_of_text("isready"), UpiCommand::IsReady);
    assert_eq!(command_of_text("upi extra"), UpiCommand::Upi);
    assert_eq!(command_of_text("Quit"), UpiCommand::Unknown);
    assert_eq!(sent(reply_to_command(UpiCommand::IsReady, "upi", "")), "readyok\n");
    assert_eq!(sent(reply_to_command(UpiCommand::Unknown, "upi", "")), "unknown command\n");
    assert_eq!(reply_to_command(UpiCommand::Quit, "upi", ""), UpiReply::Quit);
}

#[test]
fn authors_are_joined() {
    assert_eq!(join_authors(""), "");
    assert_eq!(join_authors("Ada"), "Ada");
    assert_eq!(join_authors("Ada:Bob:Cy"), "Ada & Bob & Cy");
    assert_eq!(join_authors(":"), " & ");
}

#[test]
fn input_is_trimmed_and_lowercased() {
    assert_eq!(normalize_input("  Take 1 \n"), "take 1");
    assert!(is_exit_request("exit"));
    assert!(!is_exit_request("exits"));
    assert!(is_skip_request("skip"));
    assert!(!is_skip_request("walk"));
}

#[test]
fn normal_action_choices() {
    assert_eq!(choose_normal_action("walk", false, false, false), NormalActionChoice::Walk);
    assert_eq!(choose_normal_action("skip", false, false, false), NormalActionChoice::Skip);
    assert_eq!(choose_normal_action("take 2", true, true, false), NormalActionChoice::TakePatch(1));
    assert_eq!(choose_normal_action("take 3", true, true, false), NormalActionChoice::Invalid);
    assert_eq!(choose_normal_action("take 1", true, false, false), NormalActionChoice::TakePatch(0));
    assert_eq!(choose_normal_action("run", true, true, true), NormalActionChoice::Invalid);
}

#[test]
fn offered_action_labels() {
    assert_eq!(action_labels(true, false, true), vec!["'take 1'", "'take 3'", "'walk'"]);
    assert_eq!(action_labels(false, false, false), vec!["'walk'"]);
}

#[test]
fn positions() {
    assert_eq!(parse_position_input("3, 4"), Ok((3, 4)));
    assert_eq!(parse_position_input("9 9"), Ok((9, 9)));
    assert_eq!(parse_position_input("1,,, 2"), Ok((1, 2)));
    assert_eq!(parse_position_input("3"), Err(PositionInputError::WrongFieldCount));
    assert_eq!(parse_position_input("3, 4, 5"), Err(PositionInputError::WrongFieldCount));
    assert_eq!(parse_position_input("a, 4"), Err(PositionInputError::InvalidNumber));
    assert_eq!(parse_position_input("10, 4"), Err(PositionInputError::OutOfRange));
    assert_eq!(parse_position_input("0, 4"), Err(PositionInputError::OutOfRange));
    assert_eq!(parse_position_input("3, 0"), Err(PositionInputError::OutOfRange));
    assert_eq!(parse_position_input("+2, 4"), Ok((2, 4)));
}

#[test]
fn chosen_position_is_found_among_the_valid_ones() {
    let valid = [(0, 0), (2, 3), (2, 3), (8, 8)];
    assert_eq!(position_index(&valid, 3, 4), Some(1));
    assert_eq!(position_index(&valid, 9, 9), Some(3));
    assert_eq!(position_index(&valid, 1, 2), None);
    assert_eq!(position_index(&[], 1, 1), None);
}

#[test]
fn transformations() {
    assert_eq!(parse_transformation_input("90, y"), Ok((Rotation::Degrees90, true)));
    assert_eq!(parse_transformation_input("0 n"), Ok((Rotation::Degrees0, false)));
    assert_eq!(parse_transformation_input("270, n"), Ok((Rotation::Degrees270, false)));
    assert_eq!(parse_transformation_input("45, y"), Err(TransformationInputError::InvalidRotation));
    assert_eq!(parse_transformation_input("up, y"), Err(TransformationInputError::InvalidRotation));
    assert_eq!(parse_transformation_input("45, maybe"), Err(TransformationInputError::InvalidOrientation));
    assert_eq!(parse_transformation_input("180"), Err(TransformationInputError::WrongFieldCount));
}

#[test]
fn rotations_count_quarter_turns() {
    assert_eq!(quarter_turns(Rotation::Degrees0), 0);
    assert_eq!(quarter_turns(Rotation::Degrees90), 1);
    assert_eq!(quarter_turns(Rotation::Degrees180), 2);
    assert_eq!(quarter_turns(Rotation::Degrees270), 3);
}

#[test]
fn chosen_transformation_must_be_valid() {
    let valid = vec![(0u8, false), (1u8, true), (3u8, false)];
    assert!(transformation_valid(&valid, Rotation::Degrees0, false));
    assert!(transformation_valid(&valid, Rotation::Degrees90, true));
    assert!(!transformation_valid(&valid, Rotation::Degrees90, false));
    assert!(!transformation_valid(&valid, Rotation::Degrees180, false));
    assert!(transformation_valid(&valid, Rotation::Degrees270, false));
    assert!(!transformation_valid(&[], Rotation::Degrees0, false));
}

#[test]
fn numbers_and_separators_at_the_edges() {
    assert_eq!(parse_position_input("99999999999999999999999, 4"), Err(PositionInputError::InvalidNumber));
    assert_eq!(parse_position_input("-3, 4"), Err(PositionInputError::InvalidNumber));
    assert_eq!(parse_position_input("+, 4"), Err(PositionInputError::InvalidNumber));
    assert_eq!(parse_position_input("003, 04"), Ok((3, 4)));
    assert_eq!(parse_position_input(", 3, 4"), Err(PositionInputError::WrongFieldCount));
    assert_eq!(parse_position_input("3, 4 "), Err(PositionInputError::WrongFieldCount));
    assert_eq!(parse_position_input(""), Err(PositionInputError::WrongFieldCount));
    assert_eq!(parse_transformation_input("90, yy"), Err(TransformationInputError::InvalidOrientation));
    assert_eq!(parse_transformation_input("90, ÿ"), Err(TransformationInputError::InvalidOrientation));
}

#[test]
fn trimming_removes_unicode_whitespace_only_at_the_ends() {
    assert_eq!(normalize_input("\u{3000}\tWalk\u{2003}\u{85}"), "walk");
    assert_eq!(normalize_input(" take  1 "), "take  1");
    assert_eq!(normalize_input(" \n "), "");
    assert_eq!(normalize_input("\u{200B}x"), "\u{200B}x");
}
