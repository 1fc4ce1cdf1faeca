//! Spotify as a remote application: its player, and the track it plays.

use crate::codec::{
    descriptor_model, enum_decoded, enum_encoded, enum_wanted, enum_wanted_type,
    lemma_enum_round_trip, AutoPropertyType, EventEnum, EventPropertyType, Float64,
};
use crate::command::{
    call, call_with, call_with_named, command_event, command_send_options, parameter_query,
    plain_query, send_options, NamedParameter,
};
use crate::error::{EventError, TypeName};
use crate::events::{
    getter_event, setter_event, setter_send_options, EventedObject, EventedRootObject,
    EventedSubObject,
};
use crate::request::{ArgumentModel, DescriptorBuild, SendOptions};
use crate::session::{Delivery, ObjectQuery, PropertyQuery};
use crate::sys::{AEDesc, DescType, ResType, K_AE_DEFAULT_TIMEOUT, TYPE_ENUMERATED};
use vstd::prelude::*;

verus! {

/// Signature of the application (`spfy`).
pub const SIGNATURE: u32 = 0x73706679;

/// Command "toggle play and pause" (`PlPs`).
pub const EVENT_ID_PLAYPAUSE: u32 = 0x506c5073;

/// Command "play" (`Play`).
pub const EVENT_ID_PLAY: u32 = 0x506c6179;

/// Command "pause" (`Paus`).
pub const EVENT_ID_PAUSE: u32 = 0x50617573;

/// Command "next track" (`Next`).
pub const EVENT_ID_NEXT: u32 = 0x4e657874;

/// Command "previous track" (`Prev`).
pub const EVENT_ID_PREVIOUS: u32 = 0x50726576;

/// Command "play track" (`PCtx`).
pub const EVENT_ID_PLAY_TRACK: u32 = 0x50437478;

/// Keyword of the context of "play track" (`cotx`).
pub const KEY_CONTEXT: u32 = 0x636f7478;

/// Property "player state" (`pPlS`).
pub const PROPERTY_STATE: u32 = 0x70506c53;

/// Property "shuffling" (`pShu`).
pub const PROPERTY_SHUFFLING: u32 = 0x70536875;

/// Property "repeating" (`pRep`).
pub const PROPERTY_REPEATING: u32 = 0x70526570;

/// Property "player position" (`pPos`).
pub const PROPERTY_POSITION: u32 = 0x70506f73;

/// Property "sound volume" (`pVol`).
pub const PROPERTY_VOLUME: u32 = 0x70566f6c;

/// Property "current track" (`pTrk`).
pub const PROPERTY_TRACK: u32 = 0x7054726b;

/// Property "artist" (`pArt`).
pub const PROPERTY_ARTIST: u32 = 0x70417274;

/// Property "id" (`ID  `).
pub const PROPERTY_ID: u32 = 0x49442020;

/// Property "name" (`pnam`).
pub const PROPERTY_NAME: u32 = 0x706e616d;

/// Property "album" (`pAlb`).
pub const PROPERTY_ALBUM: u32 = 0x70416c62;

/// Property "album artist" (`pAlA`).
pub const PROPERTY_ALBUM_ARTIST: u32 = 0x70416c41;

/// Property "artwork url" (`aUrl`).
pub const PROPERTY_ARTWORK_URL: u32 = 0x6155726c;

/// Property "disc number" (`pDsN`).
pub const PROPERTY_DISK_NUMBER: u32 = 0x7044734e;

/// Property "duration" (`pDur`).
pub const PROPERTY_DURATION: u32 = 0x70447572;

/// Property "played count" (`pPlC`).
pub const PROPERTY_PLAYED_COUNT: u32 = 0x70506c43;

/// Property "popularity" (`spPo`).
pub const PROPERTY_POPULARITY: u32 = 0x7370506f;

/// Property "spotify url" (`spur`).
pub const PROPERTY_SPOTIFY_URL: u32 = 0x73707572;

/// Property "starred" (`spSt`).
pub const PROPERTY_STARRED: u32 = 0x73705374;

/// Property "track number" (`pTrN`).
pub const PROPERTY_TRACK_NUMBER: u32 = 0x7054724e;

/// Wire code of [`State::STOPPED`] (`kPSS`).
pub const STATE_STOPPED: u32 = 0x6b505353;

/// Wire code of [`State::PLAYING`] (`kPSP`).
pub const STATE_PLAYING: u32 = 0x6b505350;

/// Wire code of [`State::PAUSED`] (`kPSp`).
pub const STATE_PAUSED: u32 = 0x6b505370;

/// The bundle identifier of the application.
pub open spec fn bundle_id_text() -> Seq<char> {
    "com.spotify.client"@
}

/// The state of the player.
#[allow(non_camel_case_types)]
#[derive(Debug, Clone, Copy, PartialEq, Eq, Structural)]
pub enum State {
    /// Nothing is played.
    STOPPED,
    /// A track is played.
    PLAYING,
    /// A track is held.
    PAUSED,
}

impl View for State {
    type V = State;

    open spec fn view(&self) -> State {
        *self
    }
}

impl EventEnum for State {
    open spec fn spec_from_int(value: u32) -> Option<State> {
        if value == STATE_STOPPED {
            Some(State::STOPPED)
        } else if value == STATE_PLAYING {
            Some(State::PLAYING)
        } else if value == STATE_PAUSED {
            Some(State::PAUSED)
        } else {
            None
        }
    }

    open spec fn spec_to_int(self) -> u32 {
        match self {
            State::STOPPED => STATE_STOPPED,
            State::PLAYING => STATE_PLAYING,
            State::PAUSED => STATE_PAUSED,
        }
    }

    proof fn lemma_symbol_of_code(self) {
    }

    fn from_int(value: u32) -> (r: Option<State>) {
        if value == STATE_STOPPED {
            Some(State::STOPPED)
        } else if value == STATE_PLAYING {
            Some(State::PLAYING)
        } else if value == STATE_PAUSED {
            Some(State::PAUSED)
        } else {
            None
        }
    }

    fn to_int(self) -> (r: u32) {
        match self {
            State::STOPPED => STATE_STOPPED,
            State::PLAYING => STATE_PLAYING,
            State::PAUSED => STATE_PAUSED,
        }
    }
}

impl AutoPropertyType for State {
    open spec fn auto_spec_name() -> TypeName {
        TypeName::Enum
    }

    open spec fn auto_type_tag() -> DescType {
        ResType(TYPE_ENUMERATED)
    }

    open spec fn auto_wanted_type(prop_type: DescType) -> Option<DescType> {
        enum_wanted_type(prop_type)
    }

    open spec fn auto_decoded(wanted: DescType, data: Seq<u8>) -> Option<State> {
        enum_decoded::<State>(data)
    }

    open spec fn auto_encoded(value: State) -> Seq<u8> {
        enum_encoded(value)
    }

    open spec fn auto_unwritable(value: State) -> Option<EventError> {
        None
    }

    proof fn lemma_auto_round_trip(value: State) {
        lemma_enum_round_trip(value);
    }

    fn auto_name() -> (r: TypeName) {
        TypeName::Enum
    }

    fn auto_wanted(prop_type: DescType) -> (r: Option<DescType>) {
        enum_wanted(prop_type)
    }

    fn read(wanted: DescType, data: &[u8]) -> (r: Result<State, EventError>) {
        <State as EventEnum>::read(wanted, data)
    }

    fn to_desc(&self) -> (r: Result<DescriptorBuild, EventError>) {
        <State as EventEnum>::to_desc(self)
    }
}

/// The prefix of the address of a track on the web.
pub open spec fn track_url_prefix() -> Seq<char> {
    "https://open.spotify.com/track/"@
}

/// How many characters of a track's Spotify URI come before its id.
pub const URI_PREFIX_LEN: usize = 14;

/// The address of a track on the web: the prefix, and what follows the
/// first 14 characters of its Spotify URI. A shorter URI has none.
pub open spec fn spec_track_url(spotify_url: Seq<char>) -> Option<Seq<char>> {
    if spotify_url.len() >= URI_PREFIX_LEN {
        Some(track_url_prefix() + spotify_url.skip(URI_PREFIX_LEN as int))
    } else {
        None
    }
}

/// The address of a track on the web, from its Spotify URI.
pub fn track_url(spotify_url: &str) -> (r: Option<String>)
    ensures
        match r {
            Some(url) => spec_track_url(spotify_url@) == Some(url@),
            None => spec_track_url(spotify_url@) is None,
        },
{
    let len = spotify_url.unicode_len();
    if len < URI_PREFIX_LEN {
        None
    } else {
        let id = spotify_url.substring_char(URI_PREFIX_LEN, len);
        let mut url = String::from_str("https://open.spotify.com/track/");
        url.append(id);
        assert(spotify_url@.subrange(URI_PREFIX_LEN as int, len as int) =~= spotify_url@.skip(
            URI_PREFIX_LEN as int,
        ));
        Some(url)
    }
}

/// A track of the application.
#[derive(Debug)]
pub struct SpotifyTrack {
    signature: ResType,
    bundle_id: String,
    target_object: AEDesc,
}

impl EventedObject for SpotifyTrack {
    closed spec fn spec_signature(&self) -> ResType {
        self.signature
    }

    closed spec fn spec_bundle_id(&self) -> Seq<char> {
        self.bundle_id@
    }

    closed spec fn spec_target_object(&self) -> AEDesc {
        self.target_object
    }

    fn signature(&self) -> (r: ResType) {
        assert(self.spec_signature() == self.signature);
        self.signature
    }

    fn bundle_id(&self) -> (r: &str) {
        self.bundle_id.as_str()
    }

    fn target_object(&self) -> (r: &AEDesc) {
        &self.target_object
    }
}

impl EventedSubObject for SpotifyTrack {
    fn instantiate(signature: ResType, bundle_id: &str, target_object: AEDesc) -> (r:
        SpotifyTrack) {
        SpotifyTrack { signature, bundle_id: String::from_str(bundle_id), target_object }
    }
}

impl SpotifyTrack {
    /// The read of `property` of the track as a value of type `T`.
    fn query<'a, T: EventPropertyType>(&'a self, property: u32) -> (r: Result<
        PropertyQuery<'a, T>,
        EventError,
    >)
        ensures
            reads(r, *self, ResType(property)),
    {
        match self.get_property(ResType(property)) {
            Ok(reader) => Ok(PropertyQuery::new(reader)),
            Err(e) => Err(e),
        }
    }

    /// Gives up the descriptor that names the track: the handle that the
    /// transport has to release, if there is one.
    pub fn dispose(&mut self) -> (r: Option<usize>)
        ensures
            r == old(self).spec_target_object().owed_release(),
            final(self).spec_target_object().owed_release() is None,
            final(self).spec_signature() == old(self).spec_signature(),
            final(self).spec_bundle_id() == old(self).spec_bundle_id(),
    {
        self.target_object.dispose()
    }

    /// The artist of the track.
    pub fn artist(&self) -> (r: Result<PropertyQuery<'_, String>, EventError>)
        ensures
            reads(r, *self, ResType(PROPERTY_ARTIST)),
    {
        self.query(PROPERTY_ARTIST)
    }

    /// The id of the track.
    pub fn id(&self) -> (r: Result<PropertyQuery<'_, String>, EventError>)
        ensures
            reads(r, *self, ResType(PROPERTY_ID)),
    {
        self.query(PROPERTY_ID)
    }

    /// The name of the track.
    pub fn name(&self) -> (r: Result<PropertyQuery<'_, String>, EventError>)
        ensures
            reads(r, *self, ResType(PROPERTY_NAME)),
    {
        self.query(PROPERTY_NAME)
    }

    /// The album of the track.
    pub fn album(&self) -> (r: Result<PropertyQuery<'_, String>, EventError>)
        ensures
            reads(r, *self, ResType(PROPERTY_ALBUM)),
    {
        self.query(PROPERTY_ALBUM)
    }

    /// The artist of the album of the track.
    pub fn album_artist(&self) -> (r: Result<PropertyQuery<'_, String>, EventError>)
        ensures
            reads(r, *self, ResType(PROPERTY_ALBUM_ARTIST)),
    {
        self.query(PROPERTY_ALBUM_ARTIST)
    }

    /// The address of the artwork of the track.
    pub fn artwork_url(&self) -> (r: Result<PropertyQuery<'_, String>, EventError>)
        ensures
            reads(r, *self, ResType(PROPERTY_ARTWORK_URL)),
    {
        self.query(PROPERTY_ARTWORK_URL)
    }

    /// The number of the disc of the track.
    pub fn disk_number(&self) -> (r: Result<PropertyQuery<'_, i32>, EventError>)
        ensures
            reads(r, *self, ResType(PROPERTY_DISK_NUMBER)),
    {
        self.query(PROPERTY_DISK_NUMBER)
    }

    /// The length of the track.
    pub fn duration(&self) -> (r: Result<PropertyQuery<'_, i32>, EventError>)
        ensures
            reads(r, *self, ResType(PROPERTY_DURATION)),
    {
        self.query(PROPERTY_DURATION)
    }

    /// How often the track was played.
    pub fn played_count(&self) -> (r: Result<PropertyQuery<'_, i32>, EventError>)
        ensures
            reads(r, *self, ResType(PROPERTY_PLAYED_COUNT)),
    {
        self.query(PROPERTY_PLAYED_COUNT)
    }

    /// The popularity of the track.
    pub fn popularity(&self) -> (r: Result<PropertyQuery<'_, i32>, EventError>)
        ensures
            reads(r, *self, ResType(PROPERTY_POPULARITY)),
    {
        self.query(PROPERTY_POPULARITY)
    }

    /// The Spotify URI of the track.
    pub fn spotify_url(&self) -> (r: Result<PropertyQuery<'_, String>, EventError>)
        ensures
            reads(r, *self, ResType(PROPERTY_SPOTIFY_URL)),
    {
        self.query(PROPERTY_SPOTIFY_URL)
    }

    /// The address of the track on the web: the read of its Spotify URI,
    /// whose value [`track_url`] turns into the address.
    pub fn url(&self) -> (r: Result<PropertyQuery<'_, String>, EventError>)
        ensures
            reads(r, *self, ResType(PROPERTY_SPOTIFY_URL)),
    {
        self.spotify_url()
    }

    /// Whether the track is starred.
    pub fn starred(&self) -> (r: Result<PropertyQuery<'_, bool>, EventError>)
        ensures
            reads(r, *self, ResType(PROPERTY_STARRED)),
    {
        self.query(PROPERTY_STARRED)
    }

    /// The number of the track on its disc.
    pub fn track_number(&self) -> (r: Result<PropertyQuery<'_, i32>, EventError>)
        ensures
            reads(r, *self, ResType(PROPERTY_TRACK_NUMBER)),
    {
        self.query(PROPERTY_TRACK_NUMBER)
    }
}

/// Whether `r` is the read of `property` of `object`: a property that can
/// stand in a query gives the read whose get-data event names it; any
/// other is refused.
pub open spec fn reads<O: EventedObject, T>(
    r: Result<PropertyQuery<T>, EventError>,
    object: O,
    property: DescType,
) -> bool {
    if property.spec_is_encodable() {
        r matches Ok(query) && query.reader.get_event() == getter_event(
            object.spec_bundle_id(),
            object.spec_target_object(),
            property,
        ) && query.reader.spec_signature() == object.spec_signature()
    } else {
        r matches Err(e) && e == EventError::InvalidGrammar
    }
}

/// Whether `r` is the write of `value` to `property` of `object`, sent as
/// a write is.
pub open spec fn writes<O: EventedObject, T: EventPropertyType>(
    r: Result<Delivery, EventError>,
    object: O,
    property: DescType,
    value: T,
) -> bool {
    if !property.spec_is_encodable() {
        r matches Err(e) && e == EventError::InvalidGrammar
    } else {
        match r {
            Ok(delivery) => T::unwritable(value@) is None && delivery.send == setter_send_options()
                && delivery.request@ == setter_event(
                object.spec_bundle_id(),
                object.spec_target_object(),
                property,
                descriptor_model(T::type_tag(), T::encoded(value@)),
            ),
            Err(e) => T::unwritable(value@) == Some(e),
        }
    }
}

/// Whether `r` is the command `verb` of `object` without parameters.
pub open spec fn commands<O: EventedObject>(r: Result<Delivery, EventError>, object: O, verb: u32)
    -> bool {
    r matches Ok(delivery) && delivery.send == command_send_options() && delivery.request@
        == command_event(
        object.spec_signature(),
        object.spec_bundle_id(),
        ResType(verb),
        plain_query(),
        Seq::empty(),
    )
}

/// The application itself.
#[derive(Debug)]
pub struct Spotify {
    target_object: AEDesc,
}

impl EventedObject for Spotify {
    open spec fn spec_signature(&self) -> ResType {
        ResType(SIGNATURE)
    }

    open spec fn spec_bundle_id(&self) -> Seq<char> {
        bundle_id_text()
    }

    closed spec fn spec_target_object(&self) -> AEDesc {
        self.target_object
    }

    fn signature(&self) -> (r: ResType) {
        assert(self.spec_signature() == ResType(SIGNATURE));
        ResType(SIGNATURE)
    }

    fn bundle_id(&self) -> (r: &str) {
        "com.spotify.client"
    }

    fn target_object(&self) -> (r: &AEDesc) {
        &self.target_object
    }
}

impl EventedRootObject for Spotify {

}

impl Spotify {
    /// The application: its target is the null descriptor.
    pub fn new() -> (r: Spotify)
        ensures
            r.spec_target_object() == AEDesc::null(),
    {
        Spotify { target_object: AEDesc::default() }
    }

    fn query<'a, T: EventPropertyType>(&'a self, property: u32) -> (r: Result<
        PropertyQuery<'a, T>,
        EventError,
    >)
        ensures
            reads(r, *self, ResType(property)),
    {
        match self.get_property(ResType(property)) {
            Ok(reader) => Ok(PropertyQuery::new(reader)),
            Err(e) => Err(e),
        }
    }

    fn assign<T: EventPropertyType>(&self, property: u32, value: &T) -> (r: Result<
        Delivery,
        EventError,
    >)
        ensures
            writes(r, *self, ResType(property), *value),
    {
        match self.set_property(ResType(property), value) {
            Ok(request) => Ok(
                Delivery {
                    request,
                    send: SendOptions {
                        wait_for_reply: false,
                        never_interact: false,
                        timeout: K_AE_DEFAULT_TIMEOUT,
                    },
                },
            ),
            Err(e) => Err(e),
        }
    }

    fn command(&self, verb: u32) -> (r: Result<Delivery, EventError>)
        ensures
            commands(r, *self, verb),
    {
        Ok(Delivery { request: call(self, ResType(verb)), send: send_options() })
    }

    /// Toggles between play and pause.
    pub fn play_pause(&self) -> (r: Result<Delivery, EventError>)
        ensures
            commands(r, *self, EVENT_ID_PLAYPAUSE),
    {
        self.command(EVENT_ID_PLAYPAUSE)
    }

    /// Plays.
    pub fn play(&self) -> (r: Result<Delivery, EventError>)
        ensures
            commands(r, *self, EVENT_ID_PLAY),
    {
        self.command(EVENT_ID_PLAY)
    }

    /// Pauses.
    pub fn pause(&self) -> (r: Result<Delivery, EventError>)
        ensures
            commands(r, *self, EVENT_ID_PAUSE),
    {
        self.command(EVENT_ID_PAUSE)
    }

    /// Skips to the next track.
    pub fn next(&self) -> (r: Result<Delivery, EventError>)
        ensures
            commands(r, *self, EVENT_ID_NEXT),
    {
        self.command(EVENT_ID_NEXT)
    }

    /// Skips to the previous track.
    pub fn previous(&self) -> (r: Result<Delivery, EventError>)
        ensures
            commands(r, *self, EVENT_ID_PREVIOUS),
    {
        self.command(EVENT_ID_PREVIOUS)
    }

    /// Skips to the previous track.
    pub fn prev(&self) -> (r: Result<Delivery, EventError>)
        ensures
            commands(r, *self, EVENT_ID_PREVIOUS),
    {
        self.previous()
    }

    /// The state of the player.
    pub fn state(&self) -> (r: Result<PropertyQuery<'_, State>, EventError>)
        ensures
            reads(r, *self, ResType(PROPERTY_STATE)),
    {
        self.query(PROPERTY_STATE)
    }

    /// Whether the player shuffles.
    pub fn is_shuffling(&self) -> (r: Result<PropertyQuery<'_, bool>, EventError>)
        ensures
            reads(r, *self, ResType(PROPERTY_SHUFFLING)),
    {
        self.query(PROPERTY_SHUFFLING)
    }

    /// Makes the player shuffle, or not.
    pub fn set_shuffling(&self, is_it: bool) -> (r: Result<Delivery, EventError>)
        ensures
            writes(r, *self, ResType(PROPERTY_SHUFFLING), is_it),
    {
        self.assign(PROPERTY_SHUFFLING, &is_it)
    }

    /// Whether the player repeats.
    pub fn is_repeating(&self) -> (r: Result<PropertyQuery<'_, bool>, EventError>)
        ensures
            reads(r, *self, ResType(PROPERTY_REPEATING)),
    {
        self.query(PROPERTY_REPEATING)
    }

    /// Makes the player repeat, or not.
    pub fn set_repeating(&self, is_it: bool) -> (r: Result<Delivery, EventError>)
        ensures
            writes(r, *self, ResType(PROPERTY_REPEATING), is_it),
    {
        self.assign(PROPERTY_REPEATING, &is_it)
    }

    /// The position in the track, in seconds.
    pub fn position(&self) -> (r: Result<PropertyQuery<'_, Float64>, EventError>)
        ensures
            reads(r, *self, ResType(PROPERTY_POSITION)),
    {
        self.query(PROPERTY_POSITION)
    }

    /// Moves to a position in the track, in seconds.
    pub fn set_position(&self, pos: Float64) -> (r: Result<Delivery, EventError>)
        ensures
            writes(r, *self, ResType(PROPERTY_POSITION), pos),
    {
        self.assign(PROPERTY_POSITION, &pos)
    }

    /// Moves to a position in the track, in seconds.
    pub fn set_pos(&self, pos: Float64) -> (r: Result<Delivery, EventError>)
        ensures
            writes(r, *self, ResType(PROPERTY_POSITION), pos),
    {
        self.set_position(pos)
    }

    /// The position in the track, in seconds.
    pub fn pos(&self) -> (r: Result<PropertyQuery<'_, Float64>, EventError>)
        ensures
            reads(r, *self, ResType(PROPERTY_POSITION)),
    {
        self.position()
    }

    /// The sound volume.
    pub fn volume(&self) -> (r: Result<PropertyQuery<'_, i32>, EventError>)
        ensures
            reads(r, *self, ResType(PROPERTY_VOLUME)),
    {
        self.query(PROPERTY_VOLUME)
    }

    /// Sets the sound volume.
    pub fn set_volume(&self, vol: i32) -> (r: Result<Delivery, EventError>)
        ensures
            writes(r, *self, ResType(PROPERTY_VOLUME), vol),
    {
        self.assign(PROPERTY_VOLUME, &vol)
    }

    /// The track that is played: the read of it as an object.
    pub fn track(&self) -> (r: Result<ObjectQuery<'_, SpotifyTrack>, EventError>)
        ensures
            r matches Ok(query) && query.reader.get_event() == getter_event(
                self.spec_bundle_id(),
                self.spec_target_object(),
                ResType(PROPERTY_TRACK),
            ) && query.reader.spec_signature() == self.spec_signature()
                && query.reader.spec_bundle_id() == self.spec_bundle_id(),
    {
        match self.get_property(ResType(PROPERTY_TRACK)) {
            Ok(reader) => Ok(ObjectQuery::new(reader)),
            Err(e) => Err(e),
        }
    }

    /// Plays `track`, in `context` where one is given.
    pub fn play_track(&self, track: String, context: Option<String>) -> (r: Result<
        Delivery,
        EventError,
    >)
        ensures
            r matches Ok(delivery) && delivery.send == command_send_options() && delivery.request@
                == command_event(
                self.spec_signature(),
                self.spec_bundle_id(),
                ResType(EVENT_ID_PLAY_TRACK),
                play_track_query(context is Some),
                play_track_arguments(track@, context),
            ),
    {
        match context {
            Some(context) => {
                let value = match context.to_desc() {
                    Ok(value) => value,
                    Err(e) => {
                        return Err(e);
                    },
                };
                let mut named: Vec<NamedParameter> = Vec::new();
                named.push(NamedParameter { key: ResType(KEY_CONTEXT), value });
                proof {
                    assert(crate::command::parameter_keys(named@) =~= seq![ResType(KEY_CONTEXT)]);
                    assert(crate::command::parameter_arguments(named@) =~= seq![
                        ArgumentModel::Value(
                            descriptor_model(String::type_tag(), String::encoded(context@)),
                        ),
                    ]);
                }
                match call_with_named(self, ResType(EVENT_ID_PLAY_TRACK), &track, named) {
                    Ok(request) => {
                        assert(request@.arguments =~= play_track_arguments(
                            track@,
                            Some(context),
                        ));
                        Ok(Delivery { request, send: send_options() })
                    },
                    Err(e) => Err(e),
                }
            },
            None => match call_with(self, ResType(EVENT_ID_PLAY_TRACK), &track) {
                Ok(request) => Ok(Delivery { request, send: send_options() }),
                Err(e) => Err(e),
            },
        }
    }
}

/// The query of "play track", with or without a context.
pub open spec fn play_track_query(with_context: bool) -> Seq<char> {
    if with_context {
        parameter_query(seq![ResType(KEY_CONTEXT)])
    } else {
        parameter_query(Seq::empty())
    }
}

/// The arguments of "play track": the track, and the context where one
/// is given, both as text.
pub open spec fn play_track_arguments(track: Seq<char>, context: Option<String>) -> Seq<
    ArgumentModel,
> {
    let first = ArgumentModel::Value(
        descriptor_model(String::type_tag(), String::encoded(track)),
    );
    match context {
        Some(context) => seq![
            first,
            ArgumentModel::Value(descriptor_model(String::type_tag(), String::encoded(context@))),
        ],
        None => seq![first],
    }
}

} // verus!
