use apple_events::events::{EventedObject, EventedSubObject};
use apple_events::request::Argument;
use apple_events::spotify::{
    track_url, EVENT_ID_NEXT, EVENT_ID_PAUSE, EVENT_ID_PLAY, EVENT_ID_PLAYPAUSE,
    EVENT_ID_PLAY_TRACK, EVENT_ID_PREVIOUS, KEY_CONTEXT, PROPERTY_ID, PROPERTY_POSITION,
    PROPERTY_TRACK, SIGNATURE,
};
use apple_events::codec::Float64;
use apple_events::sys::{AEDesc, ResType, K_AE_GET_DATA, K_AE_SET_DATA, TYPE_UNICODE_TEXT};
use apple_events::{Spotify, SpotifyTrack};

#[test]
fn spotify_is_the_application_itself() {
    let spotify = Spotify::new();
    assert_eq!(spotify.signature(), ResType(SIGNATURE));
    assert_eq!(spotify.signature().to_string(), "spfy");
    assert_eq!(spotify.bundle_id(), "com.spotify.client");
    assert!(spotify.target_object().is_null());
}

#[test]
fn spotify_codes_spell_their_four_characters() {
    assert_eq!(ResType(EVENT_ID_PLAYPAUSE).to_string(), "PlPs");
    assert_eq!(ResType(EVENT_ID_PLAY_TRACK).to_string(), "PCtx");
    assert_eq!(ResType(KEY_CONTEXT).to_string(), "cotx");
    assert_eq!(ResType(PROPERTY_ID).to_string(), "ID  ");
    assert_eq!(ResType(PROPERTY_TRACK).to_string(), "pTrk");
}

#[test]
fn player_commands() {
    let spotify = Spotify::new();
    let verbs = [
        (spotify.play_pause().unwrap(), EVENT_ID_PLAYPAUSE),
        (spotify.play().unwrap(), EVENT_ID_PLAY),
        (spotify.pause().unwrap(), EVENT_ID_PAUSE),
        (spotify.next().unwrap(), EVENT_ID_NEXT),
        (spotify.previous().unwrap(), EVENT_ID_PREVIOUS),
        (spotify.prev().unwrap(), EVENT_ID_PREVIOUS),
    ];
    for (delivery, verb) in verbs {
        assert_eq!(delivery.request.event_class, ResType(SIGNATURE));
        assert_eq!(delivery.request.event_id, ResType(verb));
        assert_eq!(delivery.request.query, "'----':'null'()");
        assert!(delivery.request.arguments.is_empty());
        assert!(!delivery.send.wait_for_reply);
        assert!(delivery.send.never_interact);
    }
}

#[test]
fn player_properties() {
    let spotify = Spotify::new();
    let volume = spotify.volume().unwrap();
    let (_, request) = volume.start();
    assert_eq!(request.event_id, ResType(K_AE_GET_DATA));
    assert_eq!(
        request.query,
        "'----':obj { form:prop, want:type(prop), seld:type('pVol'), from:'null'() }"
    );
    let write = spotify.set_position(Float64 { bits: 2.5f64.to_bits() }).unwrap();
    assert_eq!(write.request.event_id, ResType(K_AE_SET_DATA));
    assert!(write.request.query.contains("seld:type('pPos')"));
    assert!(!write.send.wait_for_reply);
    assert!(!write.send.never_interact);
    let same = spotify.set_pos(Float64 { bits: 2.5f64.to_bits() }).unwrap();
    assert_eq!(same.request.query, write.request.query);
    assert_eq!(ResType(PROPERTY_POSITION).to_string(), "pPos");
    let repeat = spotify.set_repeating(false).unwrap();
    assert!(repeat.request.query.contains("seld:type('pRep')"));
}

#[test]
fn play_track_with_and_without_context() {
    let spotify = Spotify::new();
    let plain = spotify.play_track(String::from("spotify:track:1"), None).unwrap();
    assert_eq!(plain.request.event_id, ResType(EVENT_ID_PLAY_TRACK));
    assert_eq!(plain.request.query, "'----':@");
    assert_eq!(plain.request.arguments.len(), 1);
    let within = spotify
        .play_track(String::from("spotify:track:1"), Some(String::from("spotify:album:2")))
        .unwrap();
    assert_eq!(within.request.query, "'----':@, 'cotx':@");
    assert_eq!(within.request.arguments.len(), 2);
    match &within.request.arguments[1] {
        Argument::Value(value) => {
            assert_eq!(value.type_tag, ResType(TYPE_UNICODE_TEXT));
            assert_eq!(value.data.len(), 2 * "spotify:album:2".len());
        }
        other => panic!("not a value: {:?}", other),
    }
}

#[test]
fn track_properties_name_the_track() {
    let track = SpotifyTrack::instantiate(ResType(SIGNATURE), "com.spotify.client", AEDesc::new(ResType(0x6f62_6a20), 21));
    let queries = [
        (track.artist().unwrap().start().1, "pArt"),
        (track.id().unwrap().start().1, "ID  "),
        (track.name().unwrap().start().1, "pnam"),
        (track.album().unwrap().start().1, "pAlb"),
        (track.album_artist().unwrap().start().1, "pAlA"),
        (track.artwork_url().unwrap().start().1, "aUrl"),
        (track.spotify_url().unwrap().start().1, "spur"),
        (track.url().unwrap().start().1, "spur"),
        (track.disk_number().unwrap().start().1, "pDsN"),
        (track.duration().unwrap().start().1, "pDur"),
        (track.played_count().unwrap().start().1, "pPlC"),
        (track.popularity().unwrap().start().1, "spPo"),
        (track.track_number().unwrap().start().1, "pTrN"),
        (track.starred().unwrap().start().1, "spSt"),
    ];
    for (request, code) in queries {
        assert_eq!(
            request.query,
            format!("'----':obj {{ form:prop, want:type(prop), seld:type('{}'), from:@ }}", code)
        );
        assert_eq!(request.arguments.len(), 1);
        assert_eq!(request.address, "com.spotify.client");
    }
}

#[test]
fn track_url_from_spotify_uri() {
    assert_eq!(
        track_url("spotify:track:6rqhFgbbKwnb9MLmUQDhG6"),
        Some(String::from("https://open.spotify.com/track/6rqhFgbbKwnb9MLmUQDhG6"))
    );
    assert_eq!(track_url("spotify:track:"), Some(String::from("https://open.spotify.com/track/")));
    assert_eq!(track_url("spotify:track"), None);
    assert_eq!(track_url(""), None);
}
