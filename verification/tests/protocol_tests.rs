use rukaibox::protocol::{
    frame_words, identification_response, next_action, origin_response, startup_action, BusAction,
    GamecubeCommand,
};

#[test]
fn command_bytes_decode_exactly() {
    assert_eq!(GamecubeCommand::from(0x00), GamecubeCommand::Probe);
    assert_eq!(GamecubeCommand::from(0xFF), GamecubeCommand::Reset);
    assert_eq!(GamecubeCommand::from(0x41), GamecubeCommand::Origin);
    assert_eq!(GamecubeCommand::from(0x42), GamecubeCommand::Recalibrate);
    assert_eq!(GamecubeCommand::from(0x40), GamecubeCommand::Poll);
    assert_eq!(GamecubeCommand::from(0x01), GamecubeCommand::Unknown);
    assert_eq!(GamecubeCommand::from(0x43), GamecubeCommand::Unknown);
    assert_eq!(GamecubeCommand::from(0xFE), GamecubeCommand::Unknown);
}

#[test]
fn every_command_routes_to_its_action() {
    assert_eq!(next_action(Some(0x00)), BusAction::SendIdentification);
    assert_eq!(next_action(Some(0xFF)), BusAction::SendIdentification);
    assert_eq!(next_action(Some(0x41)), BusAction::SendOrigin);
    assert_eq!(next_action(Some(0x42)), BusAction::SendOrigin);
    assert_eq!(next_action(Some(0x40)), BusAction::RespondToPoll);
    assert_eq!(next_action(Some(0x7F)), BusAction::Resync);
    assert_eq!(next_action(None), BusAction::Resync);
}

#[test]
fn startup_fails_on_timeout_or_unknown_command() {
    assert_eq!(startup_action(None), None);
    assert_eq!(startup_action(Some(0x99)), None);
    assert_eq!(startup_action(Some(0x00)), Some(BusAction::SendIdentification));
    assert_eq!(startup_action(Some(0xFF)), Some(BusAction::SendIdentification));
    assert_eq!(startup_action(Some(0x41)), Some(BusAction::SendOrigin));
    assert_eq!(startup_action(Some(0x42)), Some(BusAction::SendOrigin));
    assert_eq!(startup_action(Some(0x40)), Some(BusAction::RespondToPoll));
}

#[test]
fn identification_response_is_three_bytes() {
    assert_eq!(identification_response(), [9, 0, 3]);
}

#[test]
fn origin_response_is_ten_neutral_bytes() {
    assert_eq!(origin_response(), [0, 1, 128, 128, 128, 128, 0, 0, 0, 0]);
}

#[test]
fn poll_frame_marks_only_the_eighth_byte() {
    let report: [u8; 8] = [0, 0x80, 228, 128, 128, 128, 0, 0];
    let words = frame_words(&report);
    assert_eq!(words.len(), 8);
    for (i, word) in words.iter().enumerate() {
        let marker = (word >> 23) & 1;
        if i == 7 {
            assert_eq!(marker, 1);
        } else {
            assert_eq!(marker, 0);
        }
        assert_eq!((word >> 24) as u8, report[i]);
        // nothing below the marker bit is ever set
        assert_eq!(word & 0x007F_FFFF, 0);
    }
}

#[test]
fn identification_frame_is_three_words() {
    let words = frame_words(&identification_response());
    assert_eq!(words.len(), 3);
    assert_eq!(words[0], 9u32 << 24);
    assert_eq!(words[1], 0);
    assert_eq!(words[2], (3u32 << 24) | (1 << 23));
}

#[test]
fn origin_frame_is_ten_words_with_final_marker() {
    let words = frame_words(&origin_response());
    assert_eq!(words.len(), 10);
    for (i, word) in words.iter().enumerate() {
        assert_eq!((word >> 23) & 1, if i == 9 { 1 } else { 0 });
    }
}
