use met::cli::interface::UserInfo;
use met::ui::tasks::verification::VerificationMethod;
use met::utils::{
    chronological, cli_verification_step, export_line, is_yes, selected_room_ids, CliVerification,
    RoomDisplayInfo, SelectError,
};

fn info(u: &str, p: &str, k: &str, kp: &str) -> UserInfo {
    UserInfo { userid: u.to_string(), password: p.to_string(), keys_file: k.to_string(), keys_pass: kp.to_string() }
}

#[test]
fn any_empty_checks_every_field() {
    assert!(!info("@u:x", "pw", "keys.txt", "kp").any_empty());
    assert!(info("", "pw", "keys.txt", "kp").any_empty());
    assert!(info("@u:x", "", "keys.txt", "kp").any_empty());
    assert!(info("@u:x", "pw", "", "kp").any_empty());
    assert!(info("@u:x", "pw", "keys.txt", "").any_empty());
    assert!(UserInfo::default().any_empty());
}

#[test]
fn room_prompt_entries() {
    let named = RoomDisplayInfo::new(Some("General".to_string()), "!g:x".to_string());
    assert_eq!(named.display_name, "General");
    let unnamed = RoomDisplayInfo::new(None, "!u:x".to_string());
    assert_eq!(unnamed.display_name, "!u:x  (name unavailable)");
    assert_eq!(unnamed.room_id, "!u:x");
}

#[test]
fn selected_rooms_map_back_to_ids() {
    let rooms = vec![
        RoomDisplayInfo::new(Some("A".to_string()), "!a:x".to_string()),
        RoomDisplayInfo::new(Some("B".to_string()), "!b:x".to_string()),
        RoomDisplayInfo::new(Some("A".to_string()), "!a2:x".to_string()),
    ];
    assert_eq!(selected_room_ids(&rooms, &vec![1, 0]), Ok(vec!["!b:x".to_string(), "!a:x".to_string()]));
    // the second room named "A" is exported when its own entry is ticked
    assert_eq!(selected_room_ids(&rooms, &vec![2]), Ok(vec!["!a2:x".to_string()]));
    assert_eq!(
        selected_room_ids(&rooms, &vec![0, 2]),
        Ok(vec!["!a:x".to_string(), "!a2:x".to_string()])
    );
    assert_eq!(selected_room_ids(&rooms, &vec![]), Err(SelectError::NoRoomsSelected));
}

#[test]
fn chronological_reverses() {
    assert_eq!(chronological(vec![3, 2, 1]), vec![1, 2, 3]);
    assert_eq!(chronological(Vec::<u8>::new()), Vec::<u8>::new());
}

#[test]
fn plain_export_line() {
    assert_eq!(export_line("TS", "@u:x", "hi"), "TS — @u:x: hi\n");
}

#[test]
fn prompt_answers_and_verification_steps() {
    assert!(is_yes("y"));
    assert!(!is_yes("n"));
    assert!(!is_yes("Y"));
    assert!(!is_yes("yes"));
    assert_eq!(cli_verification_step(&Some(vec![VerificationMethod::SasV1])), CliVerification::RunSas);
    assert_eq!(cli_verification_step(&Some(vec![VerificationMethod::QrCodeShowV1])), CliVerification::Unsupported);
    assert_eq!(cli_verification_step(&None), CliVerification::Done);
}
