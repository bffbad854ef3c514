use clack_extensions::common::{ClapId, Color, Cookie, EventSpaceId, Match, CLAP_INVALID_ID};
use clack_extensions::event_registry::{query_answer, query_reply};
use clack_extensions::latency::latency_reply;

#[test]
fn invalid_id_matches_clap_sys() {
    assert_eq!(CLAP_INVALID_ID, clap_sys::id::CLAP_INVALID_ID);
    assert_eq!(CLAP_INVALID_ID, u32::MAX);
}

#[test]
fn clap_id_from_raw_refuses_the_invalid_value() {
    assert_eq!(ClapId::from_raw(u32::MAX), None);
    let id = ClapId::from_raw(42).unwrap();
    assert_eq!(id.get(), 42);
    assert_eq!(ClapId::from_raw(0).unwrap().get(), 0);
    assert_eq!(ClapId::from_raw(u32::MAX - 1).unwrap().get(), u32::MAX - 1);
}

#[test]
fn clap_id_new_keeps_the_raw_value() {
    assert_eq!(ClapId::new(7).get(), 7);
    assert_eq!(ClapId::new(7), ClapId::from_raw(7).unwrap());
}

#[test]
fn optional_clap_id_to_raw() {
    assert_eq!(ClapId::optional_to_raw(None), CLAP_INVALID_ID);
    assert_eq!(ClapId::optional_to_raw(Some(ClapId::new(3))), 3);
}

#[test]
fn match_from_raw_reads_negative_values_as_all() {
    assert_eq!(Match::<u16>::from_raw(-1), Match::All);
    assert_eq!(Match::<u16>::from_raw(-42), Match::All);
    assert_eq!(Match::<u16>::from_raw(i16::MIN), Match::All);
    assert_eq!(Match::<u16>::from_raw(0), Match::Specific(0));
    assert_eq!(Match::<u16>::from_raw(12), Match::Specific(12));
    assert_eq!(Match::<u16>::from_raw(i16::MAX), Match::Specific(0x7fff));
}

#[test]
fn match_to_raw_uses_minus_one_for_all() {
    assert_eq!(Match::<u16>::All.to_raw(), -1);
    assert_eq!(Match::Specific(5u16).to_raw(), 5);
}

#[test]
fn match_raw_roundtrip() {
    for raw in [-1i16, 0, 1, 127, 0x7fff] {
        assert_eq!(Match::<u16>::from_raw(raw).to_raw(), raw);
    }
    for m in [Match::All, Match::Specific(0u16), Match::Specific(0x7fffu16)] {
        assert_eq!(Match::<u16>::from_raw(m.to_raw()), m);
    }
}

#[test]
fn cookie_holds_its_address() {
    assert_eq!(Cookie::empty().as_raw(), 0);
    assert_eq!(Cookie::from_raw(0xdead_beef).as_raw(), 0xdead_beef);
    assert_eq!(Cookie::empty(), Cookie::from_raw(0));
}

#[test]
fn event_space_id_refuses_the_reserved_value() {
    assert_eq!(EventSpaceId::new(u16::MAX), None);
    assert_eq!(EventSpaceId::new(0).unwrap().id(), 0);
    assert_eq!(EventSpaceId::new(12).unwrap().id(), 12);
}

#[test]
fn optional_event_space_id() {
    assert_eq!(EventSpaceId::optional_id(&None), u16::MAX);
    assert_eq!(EventSpaceId::optional_id(&EventSpaceId::new(9)), 9);
}

#[test]
fn event_registry_query_answer_and_reply() {
    assert_eq!(query_answer(None), (false, u16::MAX));
    let id = EventSpaceId::new(4);
    assert_eq!(query_answer(id), (true, 4));

    assert_eq!(query_reply(false, 4), None);
    assert_eq!(query_reply(true, u16::MAX), None);
    assert_eq!(query_reply(true, 4), EventSpaceId::new(4));
}

#[test]
fn event_registry_query_roundtrip() {
    for result in [None, EventSpaceId::new(0), EventSpaceId::new(1000), EventSpaceId::new(u16::MAX - 1)] {
        let (success, raw_id) = query_answer(result);
        assert_eq!(query_reply(success, raw_id), result);
    }
}

#[test]
fn latency_reply_defaults_to_zero() {
    assert_eq!(latency_reply(None), 0);
    assert_eq!(latency_reply(Some(512)), 512);
}

#[test]
fn color_fields() {
    let c = Color { alpha: 255, red: 1, green: 2, blue: 3 };
    let raw = clap_sys::color::clap_color { alpha: c.alpha, red: c.red, green: c.green, blue: c.blue };
    assert_eq!((raw.alpha, raw.red, raw.green, raw.blue), (255, 1, 2, 3));
}
