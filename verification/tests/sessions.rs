use apple_events::codec::Float64;
use apple_events::error::TypeName;
use apple_events::events::{EventPropertyReader, EventedObject, EventedSubObject};
use apple_events::request::SendOptions;
use apple_events::session::{
    begin, dispatch_step, is_awaited, object_step, read_step, Action, Delivery, Event,
    ObjectQuery, PropertyQuery, Stage, Step,
};
use apple_events::sys::{
    AEBuildError, AEDesc, ResType, KEY_DIRECT_OBJECT, K_AE_DEFAULT_TIMEOUT, TYPE_CHAR,
    TYPE_IEEE_64_BIT_FLOATING_POINT, TYPE_NULL, TYPE_S_INT_32, TYPE_UNICODE_TEXT, TYPE_VERSION,
    TYPE_WILD_CARD,
};
use apple_events::{EventBuildError, EventError, Spotify, SpotifyTrack, State};

/// A stand-in for the transport: it answers from a script and counts what
/// it was asked.
struct Script {
    build: (i32, AEBuildError),
    send: i32,
    size: (i16, ResType, usize),
    fetch: (i16, Vec<u8>),
    describe: (i16, ResType, usize),
    builds: usize,
    sends: usize,
    sizes: usize,
    fetches: Vec<(ResType, usize)>,
    describes: usize,
    disposed: Vec<usize>,
}

fn script(tag: u32, data: &[u8]) -> Script {
    Script {
        build: (0, AEBuildError::default()),
        send: 0,
        size: (0, ResType(tag), data.len()),
        fetch: (0, data.to_vec()),
        describe: (0, ResType(tag), 0),
        builds: 0,
        sends: 0,
        sizes: 0,
        fetches: Vec::new(),
        describes: 0,
        disposed: Vec::new(),
    }
}

fn answer(script: &mut Script, action: Action) -> Event {
    match action {
        Action::Send(_) => {
            script.sends += 1;
            Event::Sent { status: script.send }
        }
        Action::SizeOfParam { keyword } => {
            assert_eq!(keyword, ResType(KEY_DIRECT_OBJECT));
            script.sizes += 1;
            Event::Sized { status: script.size.0, prop_type: script.size.1, size: script.size.2 }
        }
        Action::GetParamPtr { keyword, desired_type, maximum_size } => {
            assert_eq!(keyword, ResType(KEY_DIRECT_OBJECT));
            script.fetches.push((desired_type, maximum_size));
            let mut data = script.fetch.1.clone();
            data.truncate(maximum_size);
            Event::Fetched {
                status: script.fetch.0,
                actual_type: desired_type,
                actual_size: script.fetch.1.len(),
                data,
            }
        }
        Action::GetParamDesc { keyword, desired_type } => {
            assert_eq!(keyword, ResType(KEY_DIRECT_OBJECT));
            assert_eq!(desired_type, ResType(TYPE_WILD_CARD));
            script.describes += 1;
            Event::Described {
                status: script.describe.0,
                descriptor: AEDesc::new(script.describe.1, script.describe.2),
            }
        }
        Action::Dispose { handle, .. } => {
            script.disposed.push(handle);
            Event::Disposed
        }
    }
}

fn built(script: &mut Script) -> Event {
    script.builds += 1;
    Event::Built { status: script.build.0, error: script.build.1 }
}

fn run_read<T: apple_events::codec::EventPropertyType>(
    query: &PropertyQuery<'_, T>,
    script: &mut Script,
) -> Result<Option<T>, EventError> {
    let (mut stage, _request) = query.start();
    let mut event = built(script);
    loop {
        assert!(is_awaited(&stage, &event));
        let (next, step) = query.step(stage, event);
        match step {
            Step::Perform(action) => {
                event = answer(script, action);
                stage = next;
            }
            Step::Return(result) => {
                assert_eq!(next, Stage::Finished);
                return result;
            }
        }
    }
}

fn run_object(
    query: &ObjectQuery<'_, SpotifyTrack>,
    script: &mut Script,
) -> Result<Option<SpotifyTrack>, EventError> {
    let (mut stage, _request) = query.start();
    let mut event = built(script);
    loop {
        assert!(is_awaited(&stage, &event));
        let (next, step) = query.step(stage, event);
        match step {
            Step::Perform(action) => {
                event = answer(script, action);
                stage = next;
            }
            Step::Return(result) => {
                assert_eq!(next, Stage::Finished);
                return result;
            }
        }
    }
}

fn run_delivery(delivery: Delivery, script: &mut Script) -> Result<(), EventError> {
    let (mut stage, _request) = delivery.start();
    let mut event = built(script);
    loop {
        let (next, step) = Delivery::step(stage, event);
        match step {
            Step::Perform(action) => {
                event = answer(script, action);
                stage = next;
            }
            Step::Return(result) => return result,
        }
    }
}

#[test]
fn read_of_a_value_takes_one_round_trip() {
    let spotify = Spotify::new();
    let mut transport = script(TYPE_S_INT_32, &[75, 0, 0, 0]);
    assert_eq!(run_read(&spotify.volume().unwrap(), &mut transport), Ok(Some(75)));
    assert_eq!(transport.builds, 1);
    assert_eq!(transport.sends, 1);
    assert_eq!(transport.sizes, 1);
    assert_eq!(transport.fetches, vec![(ResType(TYPE_S_INT_32), 4)]);
}

#[test]
fn null_reply_yields_no_value_and_no_fetch() {
    let spotify = Spotify::new();
    let mut transport = script(TYPE_NULL, &[]);
    assert_eq!(run_read(&spotify.volume().unwrap(), &mut transport), Ok(None));
    assert_eq!(run_read(&spotify.is_shuffling().unwrap(), &mut transport), Ok(None));
    assert_eq!(run_read(&spotify.position().unwrap(), &mut transport), Ok(None));
    assert_eq!(run_read(&spotify.state().unwrap(), &mut transport), Ok(None));
    let track = SpotifyTrack::instantiate(ResType(1), "app", AEDesc::new(ResType(2), 3));
    assert_eq!(run_read(&track.name().unwrap(), &mut transport), Ok(None));
    assert!(transport.fetches.is_empty());
}

#[test]
fn foreign_reply_fails_with_the_name_of_the_type() {
    let spotify = Spotify::new();
    let mut transport = script(TYPE_IEEE_64_BIT_FLOATING_POINT, &[0; 8]);
    assert_eq!(
        run_read(&spotify.volume().unwrap(), &mut transport),
        Err(EventError::DecodeMismatch { expected: TypeName::I32 })
    );
    assert_eq!(
        run_read(&spotify.is_repeating().unwrap(), &mut transport),
        Err(EventError::DecodeMismatch { expected: TypeName::Bool })
    );
    assert_eq!(
        run_read(&spotify.state().unwrap(), &mut transport),
        Err(EventError::DecodeMismatch { expected: TypeName::Enum })
    );
    let track = SpotifyTrack::instantiate(ResType(1), "app", AEDesc::new(ResType(2), 3));
    assert_eq!(
        run_read(&track.artist().unwrap(), &mut transport),
        Err(EventError::DecodeMismatch { expected: TypeName::String })
    );
    let mut other = script(TYPE_S_INT_32, &[0; 4]);
    assert_eq!(
        run_read(&spotify.pos().unwrap(), &mut other),
        Err(EventError::DecodeMismatch { expected: TypeName::F64 })
    );
    assert!(transport.fetches.is_empty());
}

#[test]
fn unreadable_direct_parameter_is_a_transport_failure() {
    let spotify = Spotify::new();
    let mut transport = script(TYPE_S_INT_32, &[1, 0, 0, 0]);
    transport.size.0 = -1701;
    assert_eq!(
        run_read(&spotify.volume().unwrap(), &mut transport),
        Err(EventError::TransportFailed { status: -1701 })
    );
    let mut later = script(TYPE_S_INT_32, &[1, 0, 0, 0]);
    later.fetch.0 = -1700;
    assert_eq!(
        run_read(&spotify.volume().unwrap(), &mut later),
        Err(EventError::TransportFailed { status: -1700 })
    );
}

#[test]
fn failed_send_is_a_transport_failure() {
    let spotify = Spotify::new();
    let mut transport = script(TYPE_S_INT_32, &[1, 0, 0, 0]);
    transport.send = -600;
    assert_eq!(
        run_read(&spotify.volume().unwrap(), &mut transport),
        Err(EventError::TransportFailed { status: -600 })
    );
    assert_eq!(transport.sizes, 0);
    assert_eq!(
        run_delivery(spotify.play().unwrap(), &mut transport),
        Err(EventError::TransportFailed { status: -600 })
    );
}

#[test]
fn failed_build_is_a_build_failure_and_nothing_is_sent() {
    let spotify = Spotify::new();
    let mut transport = script(TYPE_S_INT_32, &[1, 0, 0, 0]);
    transport.build = (-1, AEBuildError { error: 4, error_pos: 17 });
    let expected = EventBuildError::new(AEBuildError { error: 4, error_pos: 17 });
    assert_eq!(run_read(&spotify.volume().unwrap(), &mut transport), Err(expected));
    assert_eq!(run_delivery(spotify.set_volume(3).unwrap(), &mut transport), Err(expected));
    assert_eq!(transport.sends, 0);
    match expected {
        EventError::BuildFailed(e) => {
            assert_eq!(e.code(), 4);
            assert_eq!(e.position(), 17);
        }
        other => panic!("not a build failure: {:?}", other),
    }
}

#[test]
fn text_replies_of_all_three_types() {
    let track = SpotifyTrack::instantiate(ResType(1), "app", AEDesc::new(ResType(2), 3));
    let wide = [b'H', 0, b'i', 0];
    let mut utxt = script(TYPE_UNICODE_TEXT, &wide);
    assert_eq!(run_read(&track.name().unwrap(), &mut utxt), Ok(Some(String::from("Hi"))));
    assert_eq!(utxt.fetches, vec![(ResType(TYPE_UNICODE_TEXT), 4)]);
    let mut vers = script(TYPE_VERSION, &wide);
    assert_eq!(run_read(&track.name().unwrap(), &mut vers), Ok(Some(String::from("Hi"))));
    assert_eq!(vers.fetches, vec![(ResType(TYPE_UNICODE_TEXT), 4)]);
    let mut text = script(TYPE_CHAR, b"Test Track");
    assert_eq!(run_read(&track.name().unwrap(), &mut text), Ok(Some(String::from("Test Track"))));
    assert_eq!(text.fetches, vec![(ResType(TYPE_CHAR), 10)]);
}

#[test]
fn typed_replies() {
    let spotify = Spotify::new();
    let mut flag = script(0x626f_6f6c, &[1]);
    assert_eq!(run_read(&spotify.is_shuffling().unwrap(), &mut flag), Ok(Some(true)));
    let mut state = script(0x656e_756d, &[0x70, 0x53, 0x50, 0x6b]);
    assert_eq!(run_read(&spotify.state().unwrap(), &mut state), Ok(Some(State::PAUSED)));
    let mut seconds = script(TYPE_IEEE_64_BIT_FLOATING_POINT, &12.5f64.to_le_bytes());
    assert_eq!(
        run_read(&spotify.position().unwrap(), &mut seconds),
        Ok(Some(Float64 { bits: 12.5f64.to_bits() }))
    );
}

#[test]
fn bytes_beyond_the_announced_size_are_not_decoded() {
    let (stage, step) = read_step::<i32>(
        Stage::Sizing,
        Event::Sized { status: 0, prop_type: ResType(TYPE_S_INT_32), size: 2 },
    );
    assert!(matches!(
        step,
        Step::Perform(Action::GetParamPtr { maximum_size: 2, .. })
    ));
    let (end, result) = read_step::<i32>(
        stage,
        Event::Fetched {
            status: 0,
            actual_type: ResType(TYPE_S_INT_32),
            actual_size: 4,
            data: vec![1, 2, 3, 4],
        },
    );
    assert_eq!(end, Stage::Finished);
    assert!(matches!(result, Step::Return(Ok(Some(0x0201)))));
}

#[test]
fn nested_object_then_field_takes_two_round_trips() {
    let spotify = Spotify::new();
    let mut transport = script(0x6f62_6a20, &[]);
    transport.describe = (0, ResType(0x6f62_6a20), 0x5000);
    let mut track = run_object(&spotify.track().unwrap(), &mut transport).unwrap().unwrap();
    assert_eq!(transport.sends, 1);
    assert_eq!(transport.describes, 1);
    assert_eq!(track.signature(), ResType(0x7370_6679));
    assert_eq!(track.bundle_id(), "com.spotify.client");
    assert_eq!(track.target_object().data_handle, 0x5000);
    assert!(transport.disposed.is_empty());

    transport.size = (0, ResType(TYPE_S_INT_32), 4);
    transport.fetch = (0, vec![3, 0, 0, 0]);
    let field = track.track_number().unwrap();
    let (_, request) = field.start();
    assert_eq!(request.arguments.len(), 1);
    assert!(request.query.ends_with("from:@ }"));
    assert_eq!(run_read(&field, &mut transport), Ok(Some(3)));
    assert_eq!(transport.builds, 2);
    assert_eq!(transport.sends, 2);

    assert_eq!(track.dispose(), Some(0x5000));
    assert_eq!(track.dispose(), None);
}

#[test]
fn null_object_is_absent_and_its_buffer_is_released() {
    let spotify = Spotify::new();
    let mut transport = script(TYPE_NULL, &[]);
    transport.describe = (0, ResType(TYPE_NULL), 0);
    assert!(run_object(&spotify.track().unwrap(), &mut transport).unwrap().is_none());
    assert!(transport.disposed.is_empty());
    transport.describe = (0, ResType(TYPE_NULL), 0x77);
    assert!(run_object(&spotify.track().unwrap(), &mut transport).unwrap().is_none());
    assert_eq!(transport.disposed, vec![0x77]);
}

#[test]
fn failed_object_read_releases_what_the_transport_left() {
    let spotify = Spotify::new();
    let mut transport = script(TYPE_NULL, &[]);
    transport.describe = (-1701, ResType(0x6f62_6a20), 0x88);
    assert_eq!(
        run_object(&spotify.track().unwrap(), &mut transport).unwrap_err(),
        EventError::TransportFailed { status: -1701 }
    );
    assert_eq!(transport.disposed, vec![0x88]);
    transport.describe = (-1701, ResType(TYPE_NULL), 0);
    assert_eq!(
        run_object(&spotify.track().unwrap(), &mut transport).unwrap_err(),
        EventError::TransportFailed { status: -1701 }
    );
    assert_eq!(transport.disposed, vec![0x88]);
}

#[test]
fn delivery_ends_when_the_event_is_sent() {
    let spotify = Spotify::new();
    let mut transport = script(TYPE_NULL, &[]);
    assert_eq!(run_delivery(spotify.play_pause().unwrap(), &mut transport), Ok(()));
    assert_eq!(run_delivery(spotify.set_shuffling(true).unwrap(), &mut transport), Ok(()));
    assert_eq!(transport.builds, 2);
    assert_eq!(transport.sends, 2);
    assert_eq!(transport.sizes, 0);
}

#[test]
fn steps_of_a_delivery() {
    let send = SendOptions { wait_for_reply: false, never_interact: true, timeout: K_AE_DEFAULT_TIMEOUT };
    let stage = begin(send);
    assert_eq!(stage, Stage::Building { send });
    let (sending, step) =
        dispatch_step(stage, Event::Built { status: 0, error: AEBuildError::default() });
    assert_eq!(sending, Stage::Sending);
    assert!(matches!(step, Step::Perform(Action::Send(options)) if options == send));
    let (end, result) = dispatch_step(sending, Event::Sent { status: 0 });
    assert_eq!(end, Stage::Finished);
    assert!(matches!(result, Step::Return(Ok(()))));
}

#[test]
fn a_session_waits_for_the_answer_to_its_request() {
    let send = SendOptions { wait_for_reply: true, never_interact: true, timeout: K_AE_DEFAULT_TIMEOUT };
    assert!(is_awaited(
        &Stage::Building { send },
        &Event::Built { status: 0, error: AEBuildError::default() }
    ));
    assert!(!is_awaited(&Stage::Building { send }, &Event::Sent { status: 0 }));
    assert!(is_awaited(&Stage::Sending, &Event::Sent { status: 1 }));
    assert!(is_awaited(&Stage::Releasing { failure: None }, &Event::Disposed));
    assert!(!is_awaited(&Stage::Finished, &Event::Disposed));
    assert!(!is_awaited(&Stage::Sizing, &Event::Disposed));
}

#[test]
fn object_steps_one_by_one() {
    let target = AEDesc::default();
    let reader = EventPropertyReader::new(ResType(9), "app", &target, ResType(0x7054_726b)).unwrap();
    let (stage, step) = object_step::<SpotifyTrack>(&reader, Stage::Sending, Event::Sent { status: 0 });
    assert_eq!(stage, Stage::Describing);
    assert!(matches!(step, Step::Perform(Action::GetParamDesc { .. })));
    let (end, made) = object_step::<SpotifyTrack>(
        &reader,
        stage,
        Event::Described { status: 0, descriptor: AEDesc::new(ResType(0x6f62_6a20), 11) },
    );
    assert_eq!(end, Stage::Finished);
    match made {
        Step::Return(Ok(Some(track))) => {
            assert_eq!(track.signature(), ResType(9));
            assert_eq!(track.bundle_id(), "app");
            assert_eq!(track.target_object().data_handle, 11);
        }
        other => panic!("no object: {:?}", other),
    }
}
