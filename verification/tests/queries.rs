use apple_events::codec::EventPropertyType;
use apple_events::events::{
    property_getter_format, property_setter_format, EventPropertyReader, EventPropertyWriter,
    EventedObject, PropertyDescriptor,
};
use apple_events::request::{Argument, EventRequest, SendOptions};
use apple_events::sys::{
    AEDesc, ResType, K_AE_CORE_SUITE, K_AE_DEFAULT_TIMEOUT, K_AE_GET_DATA, K_AE_SET_DATA,
    K_ANY_TRANSACTION_ID, K_AUTO_GENERATE_RETURN_ID, TYPE_APPLICATION_BUNDLE_ID, TYPE_S_INT_32,
};
use apple_events::{EventError, Spotify};

const VOLUME: u32 = 0x7056_6f6c;

fn lent(request: &EventRequest) -> Vec<(ResType, usize)> {
    let mut handles = Vec::new();
    for argument in &request.arguments {
        if let Argument::Descriptor { descriptor_type, data_handle } = argument {
            handles.push((*descriptor_type, *data_handle));
        }
    }
    handles
}

#[test]
fn getter_query_of_the_application_names_the_null_object() {
    let target = AEDesc::default();
    assert_eq!(
        property_getter_format(&target, ResType(VOLUME)).unwrap(),
        "'----':obj { form:prop, want:type(prop), seld:type('pVol'), from:'null'() }"
    );
}

#[test]
fn getter_query_of_an_object_has_a_placeholder_for_it() {
    let target = AEDesc::new(ResType(0x6f62_6a20), 9);
    assert_eq!(
        property_getter_format(&target, ResType(VOLUME)).unwrap(),
        "'----':obj { form:prop, want:type(prop), seld:type('pVol'), from:@ }"
    );
}

#[test]
fn setter_query_puts_the_value_first() {
    let root = AEDesc::default();
    let object = AEDesc::new(ResType(0x6f62_6a20), 9);
    assert_eq!(
        property_setter_format(&root, ResType(VOLUME)).unwrap(),
        "data:@, '----':obj { form:prop, want:type(prop), seld:type('pVol'), from:'null'() }"
    );
    assert_eq!(
        property_setter_format(&object, ResType(VOLUME)).unwrap(),
        "data:@, '----':obj { form:prop, want:type(prop), seld:type('pVol'), from:@ }"
    );
}

#[test]
fn property_that_cannot_be_encoded_is_refused_before_any_request() {
    let target = AEDesc::default();
    for code in [0x0000_0041u32, 0x4100_4141, 0x80ff_4141] {
        assert_eq!(property_getter_format(&target, ResType(code)), Err(EventError::InvalidGrammar));
        assert_eq!(property_setter_format(&target, ResType(code)), Err(EventError::InvalidGrammar));
        assert_eq!(
            EventPropertyReader::new(ResType(1), "app", &target, ResType(code)).unwrap_err(),
            EventError::InvalidGrammar
        );
        assert_eq!(
            EventPropertyWriter::new(ResType(1), "app", &target, ResType(code)).unwrap_err(),
            EventError::InvalidGrammar
        );
    }
}

#[test]
fn reader_composes_the_get_data_event() {
    let target = AEDesc::default();
    let reader =
        EventPropertyReader::new(ResType(0x7370_6679), "com.example.app", &target, ResType(VOLUME))
            .unwrap();
    assert_eq!(reader.signature(), ResType(0x7370_6679));
    assert_eq!(reader.bundle_id(), "com.example.app");
    let request = reader.request();
    assert_eq!(request.event_class, ResType(K_AE_CORE_SUITE));
    assert_eq!(request.event_id, ResType(K_AE_GET_DATA));
    assert_eq!(request.address_type, ResType(TYPE_APPLICATION_BUNDLE_ID));
    assert_eq!(request.address, "com.example.app");
    assert_eq!(request.return_id, K_AUTO_GENERATE_RETURN_ID);
    assert_eq!(request.transaction_id, K_ANY_TRANSACTION_ID);
    assert_eq!(
        request.query,
        "'----':obj { form:prop, want:type(prop), seld:type('pVol'), from:'null'() }"
    );
    assert!(request.arguments.is_empty());
    assert_eq!(
        reader.send_options(),
        SendOptions { wait_for_reply: true, never_interact: true, timeout: K_AE_DEFAULT_TIMEOUT }
    );
    assert_eq!(reader.send_options().mode(), 0x13);
}

#[test]
fn reader_of_an_object_lends_its_target() {
    let target = AEDesc::new(ResType(0x6f62_6a20), 77);
    let reader = EventPropertyReader::new(ResType(1), "app", &target, ResType(VOLUME)).unwrap();
    let request = reader.request();
    assert_eq!(request.arguments.len(), 1);
    assert_eq!(lent(&request), vec![(ResType(0x6f62_6a20), 77)]);
    assert!(request.query.ends_with("from:@ }"));
}

#[test]
fn writer_composes_the_set_data_event() {
    let target = AEDesc::new(ResType(0x6f62_6a20), 77);
    let writer = EventPropertyWriter::new(ResType(1), "app", &target, ResType(VOLUME)).unwrap();
    assert_eq!(
        writer.send_options(),
        SendOptions { wait_for_reply: false, never_interact: false, timeout: K_AE_DEFAULT_TIMEOUT }
    );
    assert_eq!(writer.send_options().mode(), 1);
    let request = writer.write(50i32.to_desc().unwrap());
    assert_eq!(request.event_class, ResType(K_AE_CORE_SUITE));
    assert_eq!(request.event_id, ResType(K_AE_SET_DATA));
    assert_eq!(request.address, "app");
    assert_eq!(
        request.query,
        "data:@, '----':obj { form:prop, want:type(prop), seld:type('pVol'), from:@ }"
    );
    assert_eq!(request.arguments.len(), 2);
    match &request.arguments[0] {
        Argument::Value(value) => {
            assert_eq!(value.type_tag, ResType(TYPE_S_INT_32));
            assert_eq!(value.data, vec![50, 0, 0, 0]);
            assert_eq!(value.format, "'long'(@)");
        }
        other => panic!("the value comes first, not {:?}", other),
    }
    assert_eq!(lent(&request), vec![(ResType(0x6f62_6a20), 77)]);
}

#[test]
fn value_writes_itself_through_a_writer() {
    let target = AEDesc::default();
    let writer = EventPropertyWriter::new(ResType(1), "app", &target, ResType(VOLUME)).unwrap();
    let request = true.write(writer).unwrap();
    assert_eq!(request.arguments.len(), 1);
    assert_eq!(request.event_id, ResType(K_AE_SET_DATA));
}

#[test]
fn property_descriptor_of_a_reply() {
    let descriptor = PropertyDescriptor::new(0, ResType(TYPE_S_INT_32), 4).unwrap();
    assert_eq!(descriptor.prop_type(), ResType(TYPE_S_INT_32));
    assert_eq!(descriptor.size(), 4);
    assert_eq!(
        PropertyDescriptor::new(-1701, ResType(TYPE_S_INT_32), 4),
        Err(EventError::TransportFailed { status: -1701 })
    );
}

#[test]
fn property_descriptor_read_keeps_or_replaces_the_description() {
    let descriptor = PropertyDescriptor::new(0, ResType(TYPE_S_INT_32), 4).unwrap();
    assert_eq!(descriptor.read(0, ResType(1), 99), Ok(descriptor));
    let (error, reported) = descriptor.read(-1700, ResType(0x7465_7374), 2).unwrap_err();
    assert_eq!(error, EventError::TransportFailed { status: -1700 });
    assert_eq!(reported.prop_type(), ResType(0x7465_7374));
    assert_eq!(reported.size(), 2);
}

#[test]
fn reader_takes_the_answers_of_the_transport() {
    let target = AEDesc::default();
    let reader = EventPropertyReader::new(ResType(1), "app", &target, ResType(VOLUME)).unwrap();
    let described = reader.property_descriptor(0, ResType(TYPE_S_INT_32), 4).unwrap();
    assert_eq!(described.size(), 4);
    assert_eq!(
        reader.property_descriptor(-50, ResType(TYPE_S_INT_32), 4),
        Err(EventError::TransportFailed { status: -50 })
    );
    let handed = reader.descriptor(0, AEDesc::new(ResType(0x6f62_6a20), 5)).unwrap();
    assert_eq!(handed.data_handle, 5);
    let (error, left) = reader.descriptor(-1701, AEDesc::new(ResType(0x6f62_6a20), 6)).unwrap_err();
    assert_eq!(error, EventError::TransportFailed { status: -1701 });
    assert_eq!(left.data_handle, 6);
}

#[test]
fn object_begins_reads_and_writes_of_its_properties() {
    let spotify = Spotify::new();
    let reader = spotify.get_property(ResType(VOLUME)).unwrap();
    assert_eq!(reader.bundle_id(), "com.spotify.client");
    assert_eq!(reader.signature(), ResType(0x7370_6679));
    let request = spotify.set_property(ResType(VOLUME), &30i32).unwrap();
    assert_eq!(request.event_id, ResType(K_AE_SET_DATA));
    assert_eq!(request.address, "com.spotify.client");
    assert_eq!(
        spotify.set_property(ResType(0x0000_0001), &30i32).unwrap_err(),
        EventError::InvalidGrammar
    );
    assert_eq!(spotify.get_property(ResType(0x0000_0001)).unwrap_err(), EventError::InvalidGrammar);
}
