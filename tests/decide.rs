use mylib::boundary::{outcome, Failure, Outcome};
use mylib::engine::{DataHolder, Lib};
use mylib::error::MyError;
use mylib::lifecycle::{Action, BufferLease, Event, Lifecycle, Phase};
use mylib::postcode::Postcode;
use mylib::record::{decide, CurrentState};

struct MockDataAccess {
    state: i8,
}

impl MockDataAccess {
    fn get_data(&self, _key: &str) -> Vec<u8> {
        let s = format!(r#"{{"state":{}}}"#, self.state);
        Vec::from(s.as_bytes())
    }
}

fn should_run(lib: &Lib<MockDataAccess>, postcode: Postcode) -> Result<bool, MyError> {
    let key = postcode.lookup_key();
    let held = lib.data_access().get_data(&key);
    decide(held.bytes())
}

/// A backend that answers one key with fixed bytes.
struct KeyedBackend {
    key: String,
    body: Vec<u8>,
}

fn decide_via(backend: &KeyedBackend, postcode: u32) -> Result<bool, MyError> {
    let p = Postcode::new(postcode)?;
    let key = p.lookup_key();
    assert_eq!(key, backend.key);
    decide(backend.body.bytes())
}

fn keyed(body: &[u8]) -> KeyedBackend {
    KeyedBackend {
        key: "https://api.stromgedacht.de/v1/now?zip=76137".to_string(),
        body: body.to_vec(),
    }
}

#[test]
fn scenario_state_one_runs() {
    assert_eq!(decide_via(&keyed(br#"{"state":1}"#), 76137), Ok(true));
}

#[test]
fn scenario_state_three_does_not_run() {
    assert_eq!(decide_via(&keyed(br#"{"state":3}"#), 76137), Ok(false));
}

#[test]
fn scenario_empty_body_is_invalid_data() {
    assert_eq!(decide_via(&keyed(b""), 76137), Err(MyError::InvalidData));
}

#[test]
fn scenario_postcode_five_fails_before_fetch() {
    let backend = KeyedBackend { key: String::new(), body: Vec::new() };
    assert_eq!(decide_via(&backend, 5), Err(MyError::InvalidPostcode));
}

#[test]
fn outcomes_carry_codes() {
    assert_eq!(outcome(Ok(true)), Outcome { ok: true, run: true, error: 0 });
    assert_eq!(outcome(Ok(false)), Outcome { ok: true, run: false, error: 0 });
    assert_eq!(
        outcome(Err(Failure::Lib(MyError::InvalidData))),
        Outcome { ok: false, run: false, error: 1 }
    );
    assert_eq!(
        outcome(Err(Failure::Lib(MyError::InvalidPostcode))),
        Outcome { ok: false, run: false, error: 2 }
    );
    assert_eq!(
        outcome(Err(Failure::Lib(MyError::Decode))),
        Outcome { ok: false, run: false, error: 3 }
    );
    assert_eq!(outcome(Err(Failure::FetchFailed)), Outcome { ok: false, run: false, error: 4 });
    assert_eq!(outcome(Err(Failure::NotActive)), Outcome { ok: false, run: false, error: 5 });
}

#[test]
fn test_should_run() {
    let data_access = MockDataAccess { state: 1 };
    let lib = Lib::new(data_access);
    assert!(should_run(&lib, Postcode::new(76137).unwrap()).unwrap());
}

#[test]
fn lookup_key_has_postcode() {
    let p = Postcode::new(76137).unwrap();
    assert_eq!(p.lookup_key(), "https://api.stromgedacht.de/v1/now?zip=76137");
    assert_eq!(p.code(), 76137);
}

#[test]
fn lookup_key_at_bounds() {
    assert_eq!(
        Postcode::new(10000).unwrap().lookup_key(),
        "https://api.stromgedacht.de/v1/now?zip=10000"
    );
    assert_eq!(
        Postcode::new(99999).unwrap().lookup_key(),
        "https://api.stromgedacht.de/v1/now?zip=99999"
    );
}

#[test]
fn postcode_range() {
    assert!(Postcode::new(10000).is_ok());
    assert!(Postcode::new(99999).is_ok());
    assert_eq!(Postcode::new(9999), Err(MyError::InvalidPostcode));
    assert_eq!(Postcode::new(100000), Err(MyError::InvalidPostcode));
    assert_eq!(Postcode::new(0), Err(MyError::InvalidPostcode));
    assert_eq!(Postcode::new(u32::MAX), Err(MyError::InvalidPostcode));
}

#[test]
fn postcode_five_is_invalid() {
    assert_eq!(Postcode::new(5), Err(MyError::InvalidPostcode));
}

#[test]
fn state_one_runs() {
    assert_eq!(decide(br#"{"state":1}"#), Ok(true));
}

#[test]
fn state_three_does_not_run() {
    assert_eq!(decide(br#"{"state":3}"#), Ok(false));
}

#[test]
fn levels_decide_monotonically() {
    assert_eq!(decide(br#"{"state":-1}"#), Ok(true));
    assert_eq!(decide(br#"{"state":0}"#), Ok(true));
    assert_eq!(decide(br#"{"state":2}"#), Ok(false));
    assert_eq!(decide(br#"{"state":4, "other":"x"}"#), Ok(false));
}

#[test]
fn empty_bytes_are_invalid_data() {
    assert_eq!(decide(b""), Err(MyError::InvalidData));
}

#[test]
fn malformed_bytes_are_decode_failure() {
    assert_eq!(decide(b"not json"), Err(MyError::Decode));
    assert_eq!(decide(br#"{"level":1}"#), Err(MyError::Decode));
    assert_eq!(decide(br#"{"state":"1"}"#), Err(MyError::Decode));
    assert_eq!(decide(br#"{"state":300}"#), Err(MyError::Decode));
    assert_eq!(decide(b"   "), Err(MyError::Decode));
}

#[test]
fn record_from_json_and_level() {
    assert_eq!(CurrentState::from_json(br#"{"state":-5}"#), Ok(CurrentState { state: -5 }));
    assert_eq!(CurrentState::from_level(Some(127)), Ok(CurrentState { state: 127 }));
    assert_eq!(CurrentState::from_level(Some(128)), Err(MyError::Decode));
    assert_eq!(CurrentState::from_level(Some(-129)), Err(MyError::Decode));
    assert_eq!(CurrentState::from_level(None), Err(MyError::Decode));
    assert!(CurrentState { state: 1 }.is_runnable());
    assert!(!CurrentState { state: 2 }.is_runnable());
}

#[test]
fn error_names() {
    assert_eq!(MyError::InvalidData.name(), "InvalidData");
    assert_eq!(MyError::InvalidPostcode.name(), "InvalidPostcode");
    assert_eq!(MyError::Decode.name(), "Decode");
    assert_eq!(MyError::InvalidData.code(), 1);
    assert_eq!(MyError::InvalidPostcode.code(), 2);
    assert_eq!(MyError::Decode.code(), 3);
}

#[test]
fn lib_keeps_its_capability() {
    let lib = Lib::new(MockDataAccess { state: 3 });
    assert_eq!(lib.data_access().state, 3);
    assert_eq!(lib.into_data_access().state, 3);
}

#[test]
fn lifecycle_releases_provider_once() {
    let mut s = Lifecycle::new();
    assert_eq!(s.phase, Phase::Uninitialized);
    assert_eq!(s.step(Event::InvokeStart), Action::Refuse);
    assert_eq!(s.step(Event::Construct), Action::Proceed);
    assert_eq!(s.step(Event::Construct), Action::Refuse);
    assert_eq!(s.step(Event::InvokeStart), Action::Proceed);
    assert_eq!(s.in_flight, 1);
    assert_eq!(s.step(Event::Destroy), Action::Refuse);
    assert_eq!(s.step(Event::InvokeEnd), Action::Proceed);
    assert_eq!(s.step(Event::Destroy), Action::ReleaseProvider);
    assert_eq!(s.phase, Phase::Released);
    assert_eq!(s.step(Event::Destroy), Action::Refuse);
    assert_eq!(s.step(Event::InvokeStart), Action::Refuse);
}

#[test]
fn buffer_released_exactly_once() {
    let mut lease = BufferLease::new();
    let mut releases = 0;
    assert!(lease.is_live());
    for _ in 0..3 {
        if lease.release() {
            releases += 1;
        }
    }
    assert_eq!(releases, 1);
    assert!(!lease.is_live());
}

#[test]
fn vec_holds_its_bytes() {
    let v: Vec<u8> = vec![1, 2, 3];
    assert_eq!(v.bytes(), &[1u8, 2, 3][..]);
}
