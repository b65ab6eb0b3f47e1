use nes_emu::cheat::{Cheat, CheatReceiver, CheatRequest, CheatType};

#[test]
fn parse() {
    let cheat = Cheat::from("S:0000:00:Infinite lives").unwrap();
    assert_eq!(
        cheat,
        Cheat {
            ty: CheatType::ReadSubstitute,
            address: 0x0000,
            value: 0x00,
            description: Some("Infinite lives".to_string()),
        }
    );
}

#[test]
fn parse_without_description() {
    let cheat = Cheat::from("SC:07FF:A3").unwrap();
    assert_eq!(cheat.ty, CheatType::ReadSubstituteCompare);
    assert_eq!(cheat.address, 0x07FF);
    assert_eq!(cheat.value, 0xA3);
    assert_eq!(cheat.description, None);
}

#[test]
fn parse_types() {
    assert_eq!(CheatType::try_from("S"), Some(CheatType::ReadSubstitute));
    assert_eq!(CheatType::try_from("C"), Some(CheatType::Compare));
    assert_eq!(CheatType::try_from("SC"), Some(CheatType::ReadSubstituteCompare));
    assert_eq!(CheatType::try_from("CS"), Some(CheatType::ReadSubstituteCompare));
    assert_eq!(CheatType::try_from("X"), None);
    assert_eq!(CheatType::try_from(""), None);
    assert!(CheatType::Compare.is_compare());
    assert!(CheatType::ReadSubstituteCompare.is_compare());
    assert!(!CheatType::ReadSubstitute.is_compare());
}

#[test]
fn parse_rejects_bad_fields() {
    // unknown type, bad hex, value too large, missing fields
    assert_eq!(Cheat::from("Q:0000:00"), None);
    assert_eq!(Cheat::from("S:00G0:00"), None);
    assert_eq!(Cheat::from("S:0000:100"), None);
    assert_eq!(Cheat::from("S:10000:00"), None);
    assert_eq!(Cheat::from("S:0000"), None);
    assert_eq!(Cheat::from(""), None);
    assert_eq!(Cheat::from("S::00"), None);
    // a leading plus sign is accepted, as by from_str_radix
    assert_eq!(Cheat::from("S:+10:+1").unwrap().address, 0x10);
}

#[test]
fn parse_only_the_fourth_field_is_the_description() {
    let cheat = Cheat::from("C:1234:56:lives:extra").unwrap();
    assert_eq!(cheat.description, Some("lives".to_string()));
}

#[test]
fn parse_multiple_lines() {
    let cheats = Cheat::from_multiple("  S:0001:02:one\r\nbroken line\nC:0003:04\n\n");
    assert_eq!(cheats.len(), 2);
    assert_eq!(cheats[0].address, 1);
    assert_eq!(cheats[0].description, Some("one".to_string()));
    assert_eq!(cheats[1].ty, CheatType::Compare);
    assert_eq!(cheats[1].value, 4);
    assert!(Cheat::from_multiple("   ").is_empty());
}

#[test]
fn receiver_add_remove_clear() {
    let mut receiver = CheatReceiver::new();
    let a = Cheat::from("S:0010:01").unwrap();
    let b = Cheat::from("S:0010:02").unwrap();
    let c = Cheat::from("S:0020:03").unwrap();
    receiver.update(CheatRequest::Add(a.clone()));
    receiver.update(CheatRequest::Add(b.clone()));
    receiver.update(CheatRequest::Add(c.clone()));
    assert_eq!(receiver.contains(0x10), Some(&a));
    assert_eq!(receiver.contains(0x20), Some(&c));
    assert_eq!(receiver.contains(0x30), None);
    receiver.update(CheatRequest::Remove(a.clone()));
    assert_eq!(receiver.contains(0x10), Some(&b));
    assert_eq!(receiver.cheats.len(), 2);
    receiver.update(CheatRequest::Clear);
    assert!(receiver.cheats.is_empty());
}
