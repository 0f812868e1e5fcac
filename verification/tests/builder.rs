//! Behaviour of the client-message builder against a deterministic resolver.
use xevent::event::{
    ClientEventMask, ClientMessage, ClientMessageKind, XEMBED_FOCUS_IN, XEMBED_MODALITY_ON,
    XEMBED_NOTIFY, XEMBED_PROTOCOL_VERSION, XEMBED_WINDOW_ACTIVATE,
};
use xevent::xconnection::{AtomTable, XAtomQuerier, XError};

fn full_table() -> AtomTable {
    let mut t = AtomTable::new();
    t.define("WM_DELETE_WINDOW", 101);
    t.define("WM_TAKE_FOCUS", 102);
    t.define("_NET_SYSTEM_TRAY_S0", 103);
    t
}

#[test]
fn delete_window_builds_protocol_message() {
    let t = full_table();
    let m = ClientMessageKind::DeleteWindow(40).as_message(&t).unwrap();
    assert_eq!(m.id, 40);
    assert_eq!(m.mask, ClientEventMask::NoEventMask);
    assert_eq!(m.dtype, "WM_PROTOCOLS".to_string());
    assert_eq!(m.data(), &[101, 0, 0, 0, 0]);
}

#[test]
fn take_focus_builds_protocol_message() {
    let t = full_table();
    let m = ClientMessageKind::TakeFocus(41).as_message(&t).unwrap();
    assert_eq!(m.id, 41);
    assert_eq!(m.mask, ClientEventMask::NoEventMask);
    assert_eq!(m.dtype, "WM_PROTOCOLS".to_string());
    assert_eq!(m.data(), &[102, 0, 0, 0, 0]);
}

#[test]
fn take_systray_ownership_builds_manager_message() {
    let t = full_table();
    let m = ClientMessageKind::TakeSystrayOwnership(900, 77)
        .as_message(&t)
        .unwrap();
    assert_eq!(m.id, 900);
    assert_eq!(m.mask, ClientEventMask::SubstructureNotify);
    assert_eq!(m.dtype, "MANAGER".to_string());
    assert_eq!(m.data(), &[0, 103, 77, 0, 0]);
}

#[test]
fn xembed_kinds_carry_opcode_and_version() {
    let t = AtomTable::new();
    let cases = [
        (ClientMessageKind::XEmbedNotify(5, 6), XEMBED_NOTIFY),
        (ClientMessageKind::XEmbedWindowActivate(5, 6), XEMBED_WINDOW_ACTIVATE),
        (ClientMessageKind::XEmbedFocusIn(5, 6), XEMBED_FOCUS_IN),
        (ClientMessageKind::XEmbedModalityOn(5, 6), XEMBED_MODALITY_ON),
    ];
    for (kind, opcode) in cases {
        let m = kind.as_message(&t).unwrap();
        assert_eq!(m.id, 5);
        assert_eq!(m.mask, ClientEventMask::SubstructureNotify);
        assert_eq!(m.dtype, "_XEMBED".to_string());
        assert_eq!(m.data(), &[0, opcode, 0, 6, XEMBED_PROTOCOL_VERSION]);
    }
}

#[test]
fn xembed_opcodes_have_fixed_values() {
    assert_eq!(XEMBED_NOTIFY, 0);
    assert_eq!(XEMBED_WINDOW_ACTIVATE, 1);
    assert_eq!(XEMBED_FOCUS_IN, 4);
    assert_eq!(XEMBED_MODALITY_ON, 10);
    assert_eq!(XEMBED_PROTOCOL_VERSION, 0);
}

#[test]
fn resolver_failure_is_propagated() {
    let empty = AtomTable::new();
    let expected = empty.atom_id("WM_DELETE_WINDOW").unwrap_err();
    let r = ClientMessageKind::DeleteWindow(8).as_message(&empty);
    assert_eq!(r, Err(expected));
    match ClientMessageKind::TakeFocus(8).as_message(&empty) {
        Err(XError::AtomResolutionFailed(name, _)) => assert_eq!(name, "WM_TAKE_FOCUS"),
        other => panic!("expected a resolution failure, got {:?}", other),
    }
    match ClientMessageKind::TakeSystrayOwnership(1, 2).as_message(&empty) {
        Err(XError::AtomResolutionFailed(name, _)) => {
            assert_eq!(name, "_NET_SYSTEM_TRAY_S0")
        }
        other => panic!("expected a resolution failure, got {:?}", other),
    }
}

#[test]
fn xembed_kinds_never_need_the_resolver() {
    let empty = AtomTable::new();
    assert!(ClientMessageKind::XEmbedNotify(1, 2).as_message(&empty).is_ok());
    assert!(ClientMessageKind::XEmbedWindowActivate(1, 2).as_message(&empty).is_ok());
    assert!(ClientMessageKind::XEmbedFocusIn(1, 2).as_message(&empty).is_ok());
    assert!(ClientMessageKind::XEmbedModalityOn(1, 2).as_message(&empty).is_ok());
}

#[test]
fn built_messages_revalidate_through_try_from_data() {
    let t = full_table();
    let kinds = [
        ClientMessageKind::DeleteWindow(1),
        ClientMessageKind::TakeFocus(2),
        ClientMessageKind::TakeSystrayOwnership(3, 4),
        ClientMessageKind::XEmbedFocusIn(5, 6),
        ClientMessageKind::XEmbedModalityOn(7, 8),
        ClientMessageKind::XEmbedNotify(9, 10),
        ClientMessageKind::XEmbedWindowActivate(11, 12),
    ];
    for kind in kinds {
        let m = kind.as_message(&t).unwrap();
        let again = ClientMessage::try_from_data(m.id, m.mask, &m.dtype, m.data())
            .expect("a built message must re-validate");
        assert_eq!(again, m);
    }
}

#[test]
fn atom_table_resolves_what_it_holds() {
    let t = full_table();
    assert_eq!(t.atom_id("WM_TAKE_FOCUS"), Ok(102));
    match t.atom_id("_XEMBED_INFO") {
        Err(XError::AtomResolutionFailed(name, _)) => assert_eq!(name, "_XEMBED_INFO"),
        other => panic!("expected a resolution failure, got {:?}", other),
    }
}

#[test]
fn atom_table_first_match_wins() {
    let mut t = AtomTable::new();
    t.define("WM_PROTOCOLS", 1);
    t.define("WM_PROTOCOLS", 2);
    assert_eq!(t.atom_id("WM_PROTOCOLS"), Ok(1));
}
