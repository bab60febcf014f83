//! The GameSense session: the identity of the game, one display per panel
//! and the requests that register the game, bind its event, send the frames
//! and keep the session alive.
//!
//! A session sends nothing itself. Each step hands back the request to post,
//! its body a JSON object; what the service answered is judged by
//! [`check_response`].

use crate::display::{DisplayView, SteelSeriesDisplay, SteelSeriesLCDType};
use crate::json::{
    bytes_json, entries, entries_of_each, no_entries, object_new, objects_json, optional_text,
    optional_text_json, put_bool, put_bytes, put_object, put_objects, put_optional_text, put_text,
    Json, JsonObject,
};
use crate::protocol::{
    device_type, frame_key, lemma_panel_names_distinct, spec_device_type, spec_frame_key, Endpoint,
    DEFAULT_EVENT, HEARTBEAT_INTERVAL_SECS, MODE, ZONE,
};
use vstd::prelude::*;

verus! {

fn clone_optional(text: &Option<String>) -> (copy: Option<String>)
    ensures
        copy == *text,
{
    match text {
        Some(s) => Some(s.clone()),
        None => None,
    }
}

/// A request to post: where to, and the JSON object that is its body.
#[derive(Debug, PartialEq)]
pub struct Request {
    pub url: String,
    pub body: serde_json::Map<String, serde_json::Value>,
}

impl Request {
    /// What the body says.
    pub open spec fn json(&self) -> Map<Seq<char>, Json> {
        entries(self.body)
    }
}

/// The image that a screen is bound with: no text, and a frame of the
/// panel's size with every pixel off.
pub open spec fn blank_image(lcd_type: SteelSeriesLCDType) -> Map<Seq<char>, Json> {
    map![
        "has-text"@ => Json::Bool(false),
        "image-data"@ => bytes_json(DisplayView::blank(lcd_type).bytes),
    ]
}

/// The handler that binds the screen of one device type: the zone `one`,
/// the device type of the panel's dimensions, the mode `screen` and one
/// blank image.
pub open spec fn screen_handler(lcd_type: SteelSeriesLCDType) -> Map<Seq<char>, Json> {
    map![
        "zone"@ => Json::Text(ZONE@),
        "device-type"@ => Json::Text(spec_device_type(lcd_type.spec_dimensions())),
        "mode"@ => Json::Text(MODE@),
        "datas"@ => objects_json(seq![blank_image(lcd_type)]),
    ]
}

/// What a session is to its callers: the identity of the game, the address
/// of the service, the four displays and whether a heartbeat is wanted.
pub struct SessionView {
    pub game: Seq<char>,
    pub display_name: Option<Seq<char>>,
    pub developer: Option<Seq<char>>,
    pub address: Seq<char>,
    pub apex: DisplayView,
    pub arctis: DisplayView,
    pub game_dac: DisplayView,
    pub rival: DisplayView,
    pub heartbeat: bool,
}

impl SessionView {
    /// The display that the session keeps for a device type.
    pub open spec fn display(self, lcd_type: SteelSeriesLCDType) -> DisplayView {
        match lcd_type {
            SteelSeriesLCDType::Apex => self.apex,
            SteelSeriesLCDType::Arctis => self.arctis,
            SteelSeriesLCDType::GameDAC => self.game_dac,
            SteelSeriesLCDType::Rival7x0 => self.rival,
        }
    }

    /// This session with another display for a device type.
    pub open spec fn with_display(
        self,
        lcd_type: SteelSeriesLCDType,
        display: DisplayView,
    ) -> SessionView {
        match lcd_type {
            SteelSeriesLCDType::Apex => SessionView { apex: display, ..self },
            SteelSeriesLCDType::Arctis => SessionView { arctis: display, ..self },
            SteelSeriesLCDType::GameDAC => SessionView { game_dac: display, ..self },
            SteelSeriesLCDType::Rival7x0 => SessionView { rival: display, ..self },
        }
    }

    /// The registration: the game, its event, and the display name and the
    /// developer, each `null` while it is not set.
    pub open spec fn metadata(self) -> Map<Seq<char>, Json> {
        map![
            "game"@ => Json::Text(self.game),
            "event"@ => Json::Text(DEFAULT_EVENT@),
            "value_optional"@ => Json::Bool(true),
            "game_display_name"@ => optional_text_json(self.display_name),
            "developer"@ => optional_text_json(self.developer),
        ]
    }

    /// The binding: the game, its event, and one screen handler per device
    /// type, in the order of `SteelSeriesLCDType::all`.
    pub open spec fn binding(self) -> Map<Seq<char>, Json> {
        map![
            "game"@ => Json::Text(self.game),
            "event"@ => Json::Text(DEFAULT_EVENT@),
            "value_optional"@ => Json::Bool(true),
            "handlers"@ => objects_json(
                SteelSeriesLCDType::spec_all().map_values(
                    |t: SteelSeriesLCDType| screen_handler(t),
                ),
            ),
        ]
    }

    /// The frame of one display: the bytes of its framebuffer.
    pub open spec fn frame(self, lcd_type: SteelSeriesLCDType) -> Json {
        bytes_json(self.display(lcd_type).bytes)
    }

    /// The frames of all displays, each under the key of its panel's
    /// dimensions.
    pub open spec fn frames(self) -> Map<Seq<char>, Json> {
        map![
            spec_frame_key(SteelSeriesLCDType::Apex.spec_dimensions())
                => self.frame(SteelSeriesLCDType::Apex),
            spec_frame_key(SteelSeriesLCDType::Arctis.spec_dimensions())
                => self.frame(SteelSeriesLCDType::Arctis),
            spec_frame_key(SteelSeriesLCDType::GameDAC.spec_dimensions())
                => self.frame(SteelSeriesLCDType::GameDAC),
            spec_frame_key(SteelSeriesLCDType::Rival7x0.spec_dimensions())
                => self.frame(SteelSeriesLCDType::Rival7x0),
        ]
    }

    /// The frames of the first `n` device types.
    spec fn frames_of(self, n: nat) -> Map<Seq<char>, Json>
        decreases n,
    {
        if n == 0 {
            no_entries()
        } else {
            let lcd_type = SteelSeriesLCDType::spec_all()[n - 1];
            self.frames_of((n - 1) as nat).insert(
                spec_frame_key(lcd_type.spec_dimensions()),
                self.frame(lcd_type),
            )
        }
    }

    /// The update: the game, its event, and as its data the frames of all
    /// displays.
    pub open spec fn update(self) -> Map<Seq<char>, Json> {
        map![
            "game"@ => Json::Text(self.game),
            "event"@ => Json::Text(DEFAULT_EVENT@),
            "data"@ => Json::Object(map!["frame"@ => Json::Object(self.frames())]),
        ]
    }

    /// The heartbeat: only the game.
    pub open spec fn beat(self) -> Map<Seq<char>, Json> {
        map!["game"@ => Json::Text(self.game)]
    }
}

/// The field names of one body differ from each other.
proof fn lemma_field_names()
    ensures
        "game"@.len() == 4,
        "data"@.len() == 4,
        "zone"@.len() == 4,
        "mode"@.len() == 4,
        "event"@.len() == 5,
        "datas"@.len() == 5,
        "has-text"@.len() == 8,
        "handlers"@.len() == 8,
        "developer"@.len() == 9,
        "image-data"@.len() == 10,
        "device-type"@.len() == 11,
        "value_optional"@.len() == 14,
        "game_display_name"@.len() == 17,
        "game"@ != "data"@,
        "zone"@ != "mode"@,
{
    reveal_strlit("game");
    reveal_strlit("data");
    reveal_strlit("zone");
    reveal_strlit("mode");
    reveal_strlit("event");
    reveal_strlit("datas");
    reveal_strlit("has-text");
    reveal_strlit("handlers");
    reveal_strlit("developer");
    reveal_strlit("image-data");
    reveal_strlit("device-type");
    reveal_strlit("value_optional");
    reveal_strlit("game_display_name");
    assert("game"@[0] != "data"@[0]);
    assert("zone"@[0] != "mode"@[0]);
}

/// The fields of a registration, one by one.
pub proof fn lemma_metadata_fields(session: SessionView)
    ensures
        session.metadata().dom() == set![
            "game"@,
            "event"@,
            "value_optional"@,
            "game_display_name"@,
            "developer"@,
        ],
        session.metadata()["game"@] == Json::Text(session.game),
        session.metadata()["event"@] == Json::Text("UPDATE"@),
        session.metadata()["value_optional"@] == Json::Bool(true),
        session.metadata()["game_display_name"@] == optional_text_json(session.display_name),
        session.metadata()["developer"@] == optional_text_json(session.developer),
{
    lemma_field_names();
    assert(session.metadata().dom() =~= set![
        "game"@,
        "event"@,
        "value_optional"@,
        "game_display_name"@,
        "developer"@,
    ]);
}

/// The fields of the image that a screen is bound with.
pub proof fn lemma_blank_image_fields(lcd_type: SteelSeriesLCDType)
    ensures
        blank_image(lcd_type).dom() == set!["has-text"@, "image-data"@],
        blank_image(lcd_type)["has-text"@] == Json::Bool(false),
        blank_image(lcd_type)["image-data"@] == bytes_json(DisplayView::blank(lcd_type).bytes),
{
    lemma_field_names();
    assert(blank_image(lcd_type).dom() =~= set!["has-text"@, "image-data"@]);
}

/// The fields of a screen handler.
pub proof fn lemma_screen_handler_fields(lcd_type: SteelSeriesLCDType)
    ensures
        screen_handler(lcd_type).dom() == set!["zone"@, "device-type"@, "mode"@, "datas"@],
        screen_handler(lcd_type)["zone"@] == Json::Text("one"@),
        screen_handler(lcd_type)["device-type"@] == Json::Text(
            spec_device_type(lcd_type.spec_dimensions()),
        ),
        screen_handler(lcd_type)["mode"@] == Json::Text("screen"@),
        screen_handler(lcd_type)["datas"@] == Json::Array(
            seq![Json::Object(blank_image(lcd_type))],
        ),
{
    lemma_field_names();
    assert(screen_handler(lcd_type).dom() =~= set!["zone"@, "device-type"@, "mode"@, "datas"@]);
    assert(seq![blank_image(lcd_type)].map_values(|o: Map<Seq<char>, Json>| Json::Object(o))
        =~= seq![Json::Object(blank_image(lcd_type))]);
}

/// The fields of a binding: the handlers are four, one per device type in
/// the order of `SteelSeriesLCDType::all`.
pub proof fn lemma_binding_fields(session: SessionView)
    ensures
        session.binding().dom() == set!["game"@, "event"@, "value_optional"@, "handlers"@],
        session.binding()["game"@] == Json::Text(session.game),
        session.binding()["event"@] == Json::Text("UPDATE"@),
        session.binding()["value_optional"@] == Json::Bool(true),
        session.binding()["handlers"@] == Json::Array(
            seq![
                Json::Object(screen_handler(SteelSeriesLCDType::Apex)),
                Json::Object(screen_handler(SteelSeriesLCDType::Arctis)),
                Json::Object(screen_handler(SteelSeriesLCDType::GameDAC)),
                Json::Object(screen_handler(SteelSeriesLCDType::Rival7x0)),
            ],
        ),
{
    lemma_field_names();
    assert(session.binding().dom() =~= set!["game"@, "event"@, "value_optional"@, "handlers"@]);
    assert(SteelSeriesLCDType::spec_all().map_values(
        |t: SteelSeriesLCDType| screen_handler(t),
    ).map_values(|o: Map<Seq<char>, Json>| Json::Object(o)) =~= seq![
        Json::Object(screen_handler(SteelSeriesLCDType::Apex)),
        Json::Object(screen_handler(SteelSeriesLCDType::Arctis)),
        Json::Object(screen_handler(SteelSeriesLCDType::GameDAC)),
        Json::Object(screen_handler(SteelSeriesLCDType::Rival7x0)),
    ]);
}

/// The fields of an update: the frames stand under `frame`, inside `data`.
pub proof fn lemma_update_fields(session: SessionView)
    ensures
        session.update().dom() == set!["game"@, "event"@, "data"@],
        session.update()["game"@] == Json::Text(session.game),
        session.update()["event"@] == Json::Text("UPDATE"@),
        session.update()["data"@] == Json::Object(map!["frame"@ => Json::Object(session.frames())]),
{
    lemma_field_names();
    assert(session.update().dom() =~= set!["game"@, "event"@, "data"@]);
}

/// An update carries exactly one frame per device type: under the key of
/// the type's dimensions stand the bytes of the display that the session
/// keeps for that type, and no other key is sent.
pub proof fn lemma_update_frames(session: SessionView, lcd_type: SteelSeriesLCDType)
    ensures
        session.frames().dom().contains(spec_frame_key(lcd_type.spec_dimensions())),
        session.frames()[spec_frame_key(lcd_type.spec_dimensions())] == bytes_json(
            session.display(lcd_type).bytes,
        ),
        session.frames().dom().len() == 4,
        forall|key: Seq<char>| #[trigger]
            session.frames().dom().contains(key) ==> exists|t: SteelSeriesLCDType|
                key == spec_frame_key(t.spec_dimensions()),
{
    lemma_panel_names_distinct(SteelSeriesLCDType::Apex, SteelSeriesLCDType::Arctis);
    lemma_panel_names_distinct(SteelSeriesLCDType::Apex, SteelSeriesLCDType::GameDAC);
    lemma_panel_names_distinct(SteelSeriesLCDType::Apex, SteelSeriesLCDType::Rival7x0);
    lemma_panel_names_distinct(SteelSeriesLCDType::Arctis, SteelSeriesLCDType::GameDAC);
    lemma_panel_names_distinct(SteelSeriesLCDType::Arctis, SteelSeriesLCDType::Rival7x0);
    lemma_panel_names_distinct(SteelSeriesLCDType::GameDAC, SteelSeriesLCDType::Rival7x0);
    assert forall|key: Seq<char>| #[trigger]
        session.frames().dom().contains(key) implies exists|t: SteelSeriesLCDType|
        key == spec_frame_key(t.spec_dimensions()) by {
        let witness = if key == spec_frame_key(SteelSeriesLCDType::Apex.spec_dimensions()) {
            SteelSeriesLCDType::Apex
        } else if key == spec_frame_key(SteelSeriesLCDType::Arctis.spec_dimensions()) {
            SteelSeriesLCDType::Arctis
        } else if key == spec_frame_key(SteelSeriesLCDType::GameDAC.spec_dimensions()) {
            SteelSeriesLCDType::GameDAC
        } else {
            SteelSeriesLCDType::Rival7x0
        };
        assert(key == spec_frame_key(witness.spec_dimensions()));
    }
}

/// A session with the GameSense service: the game, and one display for each
/// type of device.
///
/// The service expects `register`, then `bind_event`, then any number of
/// `update_displays`. The session does not hold its callers to that order.
pub struct GameSenseAPI {
    game: String,
    display_name: Option<String>,
    developer: Option<String>,
    address: String,
    apex: SteelSeriesDisplay,
    arctis: SteelSeriesDisplay,
    game_dac: SteelSeriesDisplay,
    rival: SteelSeriesDisplay,
    send_heartbeat: bool,
}

impl View for GameSenseAPI {
    type V = SessionView;

    closed spec fn view(&self) -> SessionView {
        SessionView {
            game: self.game@,
            display_name: optional_text(self.display_name),
            developer: optional_text(self.developer),
            address: self.address@,
            apex: self.apex@,
            arctis: self.arctis@,
            game_dac: self.game_dac@,
            rival: self.rival@,
            heartbeat: self.send_heartbeat,
        }
    }
}

impl GameSenseAPI {
    /// Create a session for the game `game_name` with a service that listens
    /// at `address` (host and port). The session holds a blank display for
    /// each type of device; nothing is registered yet, and no heartbeat is
    /// wanted.
    pub fn new(game_name: String, address: String) -> (api: GameSenseAPI)
        ensures
            api@ == (SessionView {
                game: game_name@,
                display_name: None,
                developer: None,
                address: address@,
                apex: DisplayView::blank(SteelSeriesLCDType::Apex),
                arctis: DisplayView::blank(SteelSeriesLCDType::Arctis),
                game_dac: DisplayView::blank(SteelSeriesLCDType::GameDAC),
                rival: DisplayView::blank(SteelSeriesLCDType::Rival7x0),
                heartbeat: false,
            }),
    {
        GameSenseAPI {
            game: game_name,
            display_name: None,
            developer: None,
            address,
            apex: SteelSeriesDisplay::new(SteelSeriesLCDType::Apex),
            arctis: SteelSeriesDisplay::new(SteelSeriesLCDType::Arctis),
            game_dac: SteelSeriesDisplay::new(SteelSeriesLCDType::GameDAC),
            rival: SteelSeriesDisplay::new(SteelSeriesLCDType::Rival7x0),
            send_heartbeat: false,
        }
    }

    /// Set a developer name for this game. It is sent with the next
    /// registration.
    pub fn developer(&mut self, developer: String)
        ensures
            final(self)@ == (SessionView { developer: Some(developer@), ..old(self)@ }),
    {
        self.developer = Some(developer);
    }

    /// Set a description for this game. It is sent with the next
    /// registration, as the name that the service displays.
    pub fn game_description(&mut self, description: String)
        ensures
            final(self)@ == (SessionView { display_name: Some(description@), ..old(self)@ }),
    {
        self.display_name = Some(description);
    }

    /// The request that registers the game with the service.
    pub fn register(&self) -> (request: Request)
        ensures
            request.url@ == Endpoint::GameMetadata.spec_url(self@.address),
            request.json() == self@.metadata(),
    {
        let mut body = object_new();
        put_text(&mut body, "game", self.game.clone());
        put_text(&mut body, "event", String::from_str(DEFAULT_EVENT));
        put_bool(&mut body, "value_optional", true);
        put_optional_text(&mut body, "game_display_name", clone_optional(&self.display_name));
        put_optional_text(&mut body, "developer", clone_optional(&self.developer));
        Request { url: Endpoint::GameMetadata.url(self.address.as_str()), body }
    }

    /// The request that binds the event to one screen handler per device
    /// type, each with a blank image of the panel's size. It is to follow
    /// the registration.
    pub fn bind_event(&self) -> (request: Request)
        ensures
            request.url@ == Endpoint::BindGameEvent.spec_url(self@.address),
            request.json() == self@.binding(),
    {
        let types = SteelSeriesLCDType::all();
        let mut handlers: Vec<JsonObject> = Vec::new();
        let mut i: usize = 0;
        while i < types.len()
            invariant
                i <= types.len(),
                types@ == SteelSeriesLCDType::spec_all(),
                handlers@.len() == i,
                forall|k: int|
                    0 <= k < i ==> entries(#[trigger] handlers@[k]) == screen_handler(types@[k]),
            decreases types.len() - i,
        {
            let lcd_type = types[i];
            let empty_data: Vec<u8> = vec![0x00u8; lcd_type.buffer_len()];
            let mut image = object_new();
            put_bool(&mut image, "has-text", false);
            put_bytes(&mut image, "image-data", empty_data.as_slice());
            let mut datas: Vec<JsonObject> = Vec::new();
            datas.push(image);
            let mut handler = object_new();
            put_text(&mut handler, "zone", String::from_str(ZONE));
            put_text(&mut handler, "device-type", device_type(lcd_type.dimensions()));
            put_text(&mut handler, "mode", String::from_str(MODE));
            proof {
                assert(empty_data@ =~= DisplayView::blank(lcd_type).bytes);
                assert(entries_of_each(datas@) =~= seq![blank_image(lcd_type)]);
            }
            put_objects(&mut handler, "datas", datas);
            handlers.push(handler);
            i += 1;
        }
        proof {
            assert(entries_of_each(handlers@) =~= SteelSeriesLCDType::spec_all().map_values(
                |t: SteelSeriesLCDType| screen_handler(t),
            ));
        }
        let mut body = object_new();
        put_text(&mut body, "game", self.game.clone());
        put_text(&mut body, "event", String::from_str(DEFAULT_EVENT));
        put_bool(&mut body, "value_optional", true);
        put_objects(&mut body, "handlers", handlers);
        Request { url: Endpoint::BindGameEvent.url(self.address.as_str()), body }
    }

    /// The request that sends the frames of all displays: the flush of what
    /// was drawn since the last update. It is built in any state of the
    /// session, whether or not a registration or a binding came before.
    pub fn update_displays(&self) -> (request: Request)
        ensures
            request.url@ == Endpoint::GameEvent.spec_url(self@.address),
            request.json() == self@.update(),
    {
        let types = SteelSeriesLCDType::all();
        let mut img_datas = object_new();
        let mut i: usize = 0;
        while i < types.len()
            invariant
                i <= types.len(),
                types@ == SteelSeriesLCDType::spec_all(),
                entries(img_datas) == self@.frames_of(i as nat),
            decreases types.len() - i,
        {
            let lcd_type = types[i];
            let key = frame_key(lcd_type.dimensions());
            put_bytes(&mut img_datas, key.as_str(), self.display(lcd_type).as_bytes());
            i += 1;
        }
        proof {
            reveal_with_fuel(SessionView::frames_of, 5);
            assert(self@.frames_of(4) == self@.frames());
        }
        let mut data = object_new();
        put_object(&mut data, "frame", img_datas);
        let mut body = object_new();
        put_text(&mut body, "game", self.game.clone());
        put_text(&mut body, "event", String::from_str(DEFAULT_EVENT));
        put_object(&mut body, "data", data);
        Request { url: Endpoint::GameEvent.url(self.address.as_str()), body }
    }

    /// The display kept for a device type.
    pub fn display(&self, lcd_type: SteelSeriesLCDType) -> (display: &SteelSeriesDisplay)
        ensures
            display@ == self@.display(lcd_type),
    {
        match lcd_type {
            SteelSeriesLCDType::Apex => &self.apex,
            SteelSeriesLCDType::Arctis => &self.arctis,
            SteelSeriesLCDType::GameDAC => &self.game_dac,
            SteelSeriesLCDType::Rival7x0 => &self.rival,
        }
    }

    /// The display kept for a device type, to draw on. What is drawn is
    /// sent with the next update.
    pub fn display_mut(&mut self, lcd_type: SteelSeriesLCDType) -> (display: &mut SteelSeriesDisplay)
        ensures
            display@ == old(self)@.display(lcd_type),
            final(self)@ == old(self)@.with_display(lcd_type, final(display)@),
    {
        match lcd_type {
            SteelSeriesLCDType::Apex => &mut self.apex,
            SteelSeriesLCDType::Arctis => &mut self.arctis,
            SteelSeriesLCDType::GameDAC => &mut self.game_dac,
            SteelSeriesLCDType::Rival7x0 => &mut self.rival,
        }
    }

    /// 128x40 display for Apex7, Apex 7 TKL, Apex Pro and Apex Pro TKL.
    pub fn display_apex_mut(&mut self) -> (display: &mut SteelSeriesDisplay)
        ensures
            display@ == old(self)@.apex,
            final(self)@ == (SessionView { apex: final(display)@, ..old(self)@ }),
    {
        self.display_mut(SteelSeriesLCDType::Apex)
    }

    /// 128x48 display for Arctis Pro Wireless.
    pub fn display_arctis_mut(&mut self) -> (display: &mut SteelSeriesDisplay)
        ensures
            display@ == old(self)@.arctis,
            final(self)@ == (SessionView { arctis: final(display)@, ..old(self)@ }),
    {
        self.display_mut(SteelSeriesLCDType::Arctis)
    }

    /// 128x52 display for GameDAC or Arctis Pro.
    pub fn display_game_dac_mut(&mut self) -> (display: &mut SteelSeriesDisplay)
        ensures
            display@ == old(self)@.game_dac,
            final(self)@ == (SessionView { game_dac: final(display)@, ..old(self)@ }),
    {
        self.display_mut(SteelSeriesLCDType::GameDAC)
    }

    /// 128x36 display for Rival 700 and 710.
    pub fn display_rival_mut(&mut self) -> (display: &mut SteelSeriesDisplay)
        ensures
            display@ == old(self)@.rival,
            final(self)@ == (SessionView { rival: final(display)@, ..old(self)@ }),
    {
        self.display_mut(SteelSeriesLCDType::Rival7x0)
    }

    /// Ask for a heartbeat every ten seconds: the task that the caller is to
    /// run in the background, so that the device keeps its screen while no
    /// update is sent. At most one heartbeat runs for a session: where one
    /// was wanted already, the task says that it is to be stopped first.
    pub fn register_heartbeat(&mut self) -> (task: HeartbeatTask)
        ensures
            final(self)@ == (SessionView { heartbeat: true, ..old(self)@ }),
            task.request.url@ == Endpoint::GameHeartbeat.spec_url(old(self)@.address),
            task.request.json() == old(self)@.beat(),
            task.interval_secs == HEARTBEAT_INTERVAL_SECS,
            task.stop_previous == old(self)@.heartbeat,
    {
        self.register_heartbeat_every(HEARTBEAT_INTERVAL_SECS)
    }

    /// Ask for a heartbeat with a pause of `interval_secs` seconds between
    /// two posts.
    pub fn register_heartbeat_every(&mut self, interval_secs: u64) -> (task: HeartbeatTask)
        ensures
            final(self)@ == (SessionView { heartbeat: true, ..old(self)@ }),
            task.request.url@ == Endpoint::GameHeartbeat.spec_url(old(self)@.address),
            task.request.json() == old(self)@.beat(),
            task.interval_secs == interval_secs,
            task.stop_previous == old(self)@.heartbeat,
    {
        let stop_previous = self.send_heartbeat;
        self.send_heartbeat = true;
        let mut body = object_new();
        put_text(&mut body, "game", self.game.clone());
        HeartbeatTask {
            request: Request { url: Endpoint::GameHeartbeat.url(self.address.as_str()), body },
            interval_secs,
            stop_previous,
        }
    }

    /// Stop asking for the heartbeat. The running task sees it when it next
    /// reads the flag, at most one interval later.
    pub fn unregister_heartbeat(&mut self)
        ensures
            final(self)@ == (SessionView { heartbeat: false, ..old(self)@ }),
    {
        self.send_heartbeat = false;
    }

    /// Whether a heartbeat is wanted: the flag that the running task reads.
    pub fn heartbeat_wanted(&self) -> (wanted: bool)
        ensures
            wanted == self@.heartbeat,
    {
        self.send_heartbeat
    }
}

/// A heartbeat to run: the request to post again and again, the pause
/// between two posts, and whether an earlier task is to be stopped first.
#[derive(Debug, PartialEq)]
pub struct HeartbeatTask {
    pub request: Request,
    pub interval_secs: u64,
    pub stop_previous: bool,
}

/// One turn of the heartbeat loop.
#[derive(Clone, Copy, Debug, PartialEq, Eq, Structural)]
pub enum HeartbeatAction {
    /// Post the heartbeat, then sleep for so many seconds and ask again.
    Beat { sleep_secs: u64 },
    /// Leave the loop.
    Stop,
}

impl HeartbeatTask {
    /// What the loop does next, given the flag as it reads now and the
    /// reply to the last heartbeat, if there was one. The reply is not
    /// looked at: a lost heartbeat neither stops the loop nor is reported.
    #[allow(unused_variables)]
    pub fn next(&self, wanted: bool, last: &Option<Reply>) -> (action: HeartbeatAction)
        ensures
            action == (if wanted {
                HeartbeatAction::Beat { sleep_secs: self.interval_secs }
            } else {
                HeartbeatAction::Stop
            }),
    {
        if wanted {
            HeartbeatAction::Beat { sleep_secs: self.interval_secs }
        } else {
            HeartbeatAction::Stop
        }
    }
}

/// What came back for a request.
#[derive(Debug, PartialEq, Eq)]
pub enum Reply {
    /// The request did not reach the service, or no answer came back.
    Failed { reason: String },
    /// The service answered, with an HTTP status and a body.
    Answered { status: u16, body: String },
}

/// Why a request did not succeed.
#[derive(Debug, PartialEq, Eq)]
pub enum ApiError {
    /// The request did not reach the service, or no answer came back.
    Transport { reason: String },
    /// The service answered with a status other than success; its body says
    /// why.
    Rejected { status: u16, body: String },
}

/// Whether an HTTP status is one of success, 200 to 299.
pub open spec fn is_success(status: u16) -> bool {
    200 <= status < 300
}

/// The outcome of a request, by its reply.
pub open spec fn spec_check_response(reply: Reply) -> Result<(), ApiError> {
    match reply {
        Reply::Failed { reason } => Err(ApiError::Transport { reason }),
        Reply::Answered { status, body } => if is_success(status) {
            Ok(())
        } else {
            Err(ApiError::Rejected { status, body })
        },
    }
}

/// Judge the reply to a request: a status of success is the only good
/// outcome. Any other status is an error that carries the body of the
/// answer, and a request that did not get through is an error too. Nothing
/// is tried again.
pub fn check_response(reply: Reply) -> (outcome: Result<(), ApiError>)
    ensures
        outcome == spec_check_response(reply),
        outcome.is_ok() <==> (reply matches Reply::Answered { status, .. } && is_success(status)),
{
    match reply {
        Reply::Failed { reason } => Err(ApiError::Transport { reason }),
        Reply::Answered { status, body } => {
            if 200 <= status && status < 300 {
                Ok(())
            } else {
                Err(ApiError::Rejected { status, body })
            }
        },
    }
}

} // verus!
