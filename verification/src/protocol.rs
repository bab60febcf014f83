//! Names and addresses of the GameSense protocol: the event name, the four
//! request paths and the strings that name a panel by its dimensions.

use crate::display::{Dimensions, SteelSeriesLCDType};
use vstd::prelude::*;

verus! {

/// The name of the one event that a session registers, binds and sends.
pub const DEFAULT_EVENT: &'static str = "UPDATE";

/// The content type of every request.
pub const CONTENT_TYPE: &'static str = "application/json";

/// The zone that every screen handler is bound to.
pub const ZONE: &'static str = "one";

/// The mode of every screen handler.
pub const MODE: &'static str = "screen";

/// Seconds between two heartbeats. The device blanks the screen after about
/// fifteen seconds of silence, so one lost heartbeat is tolerated.
pub const HEARTBEAT_INTERVAL_SECS: u64 = 10;

/// The character of a decimal digit.
pub open spec fn digit(d: int) -> char {
    seq!['0', '1', '2', '3', '4', '5', '6', '7', '8', '9'][d]
}

/// The decimal notation of `n`, without leading zeros.
pub open spec fn decimal(n: nat) -> Seq<char>
    decreases n,
{
    if n < 10 {
        seq![digit(n as int)]
    } else {
        decimal(n / 10) + seq![digit((n % 10) as int)]
    }
}

/// The number that a decimal digit stands for.
pub open spec fn digit_value(c: char) -> int {
    c as int - '0' as int
}

/// The number that a sequence of decimal digits denotes.
pub open spec fn decimal_value(digits: Seq<char>) -> int
    decreases digits.len(),
{
    if digits.len() == 0 {
        0
    } else {
        decimal_value(digits.drop_last()) * 10 + digit_value(digits.last())
    }
}

/// The decimal notation of a number is made of digits, at least one, reads
/// back as the number, and starts with a zero only for zero itself.
pub proof fn lemma_decimal(n: nat)
    ensures
        decimal(n).len() >= 1,
        forall|i: int| 0 <= i < decimal(n).len() ==> 0 <= digit_value(#[trigger] decimal(n)[i]) <= 9,
        decimal_value(decimal(n)) == n,
        decimal(n)[0] == '0' <==> n == 0,
    decreases n,
{
    let last = digit((n % 10) as int);
    assert(digit_value(last) == n % 10);
    if n < 10 {
        assert(decimal(n).drop_last() =~= Seq::<char>::empty());
        assert(decimal(n).last() == last);
        assert(decimal_value(decimal(n).drop_last()) == 0);
    } else {
        lemma_decimal(n / 10);
        assert(decimal(n).drop_last() =~= decimal(n / 10));
        assert(decimal(n).last() == last);
        assert(decimal(n)[0] == decimal(n / 10)[0]);
    }
}

/// The notation of dimensions: width, the letter `x`, height.
pub open spec fn spec_extent(size: Dimensions) -> Seq<char> {
    decimal(size.width as nat) + "x"@ + decimal(size.height as nat)
}

/// The device type of a screen of the given dimensions.
pub open spec fn spec_device_type(size: Dimensions) -> Seq<char> {
    "screened-"@ + spec_extent(size)
}

/// The key under which a frame for a screen of the given dimensions is sent.
pub open spec fn spec_frame_key(size: Dimensions) -> Seq<char> {
    "image-data-"@ + spec_extent(size)
}

fn digit_str(d: u32) -> (s: &'static str)
    requires
        d < 10,
    ensures
        s@ == seq![digit(d as int)],
{
    proof {
        reveal_strlit("0");
        reveal_strlit("1");
        reveal_strlit("2");
        reveal_strlit("3");
        reveal_strlit("4");
        reveal_strlit("5");
        reveal_strlit("6");
        reveal_strlit("7");
        reveal_strlit("8");
        reveal_strlit("9");
    }
    let s = match d {
        0 => "0",
        1 => "1",
        2 => "2",
        3 => "3",
        4 => "4",
        5 => "5",
        6 => "6",
        7 => "7",
        8 => "8",
        _ => "9",
    };
    assert(s@ =~= seq![digit(d as int)]);
    s
}

/// Append the decimal notation of `n` to `text`.
pub fn push_decimal(text: &mut String, n: u32)
    ensures
        final(text)@ == old(text)@ + decimal(n as nat),
    decreases n,
{
    if n >= 10 {
        push_decimal(text, n / 10);
    }
    text.append(digit_str(n % 10));
    assert(text@ =~= old(text)@ + decimal(n as nat));
}

fn push_extent(text: &mut String, size: Dimensions)
    ensures
        final(text)@ == old(text)@ + spec_extent(size),
{
    push_decimal(text, size.width);
    text.append("x");
    push_decimal(text, size.height);
    assert(text@ =~= old(text)@ + spec_extent(size));
}

/// The device type of a screen of the given dimensions, such as
/// `screened-128x40`.
pub fn device_type(size: Dimensions) -> (name: String)
    ensures
        name@ == spec_device_type(size),
{
    let mut name = String::from_str("screened-");
    push_extent(&mut name, size);
    name
}

/// The key of a frame for a screen of the given dimensions, such as
/// `image-data-128x40`.
pub fn frame_key(size: Dimensions) -> (key: String)
    ensures
        key@ == spec_frame_key(size),
{
    let mut key = String::from_str("image-data-");
    push_extent(&mut key, size);
    key
}

/// The names of the four panels, written out.
pub proof fn lemma_panel_names(lcd_type: SteelSeriesLCDType)
    ensures
        spec_extent(lcd_type.spec_dimensions()) == (match lcd_type {
            SteelSeriesLCDType::Apex => "128x40"@,
            SteelSeriesLCDType::Arctis => "128x48"@,
            SteelSeriesLCDType::GameDAC => "128x52"@,
            SteelSeriesLCDType::Rival7x0 => "128x36"@,
        }),
        spec_device_type(lcd_type.spec_dimensions()) == (match lcd_type {
            SteelSeriesLCDType::Apex => "screened-128x40"@,
            SteelSeriesLCDType::Arctis => "screened-128x48"@,
            SteelSeriesLCDType::GameDAC => "screened-128x52"@,
            SteelSeriesLCDType::Rival7x0 => "screened-128x36"@,
        }),
        spec_frame_key(lcd_type.spec_dimensions()) == (match lcd_type {
            SteelSeriesLCDType::Apex => "image-data-128x40"@,
            SteelSeriesLCDType::Arctis => "image-data-128x48"@,
            SteelSeriesLCDType::GameDAC => "image-data-128x52"@,
            SteelSeriesLCDType::Rival7x0 => "image-data-128x36"@,
        }),
{
    reveal_with_fuel(decimal, 3);
    reveal_strlit("x");
    reveal_strlit("screened-");
    reveal_strlit("image-data-");
    let size = lcd_type.spec_dimensions();
    match lcd_type {
        SteelSeriesLCDType::Apex => {
            reveal_strlit("128x40");
            reveal_strlit("screened-128x40");
            reveal_strlit("image-data-128x40");
            assert(spec_extent(size) =~= "128x40"@);
            assert(spec_device_type(size) =~= "screened-128x40"@);
            assert(spec_frame_key(size) =~= "image-data-128x40"@);
        },
        SteelSeriesLCDType::Arctis => {
            reveal_strlit("128x48");
            reveal_strlit("screened-128x48");
            reveal_strlit("image-data-128x48");
            assert(spec_extent(size) =~= "128x48"@);
            assert(spec_device_type(size) =~= "screened-128x48"@);
            assert(spec_frame_key(size) =~= "image-data-128x48"@);
        },
        SteelSeriesLCDType::GameDAC => {
            reveal_strlit("128x52");
            reveal_strlit("screened-128x52");
            reveal_strlit("image-data-128x52");
            assert(spec_extent(size) =~= "128x52"@);
            assert(spec_device_type(size) =~= "screened-128x52"@);
            assert(spec_frame_key(size) =~= "image-data-128x52"@);
        },
        SteelSeriesLCDType::Rival7x0 => {
            reveal_strlit("128x36");
            reveal_strlit("screened-128x36");
            reveal_strlit("image-data-128x36");
            assert(spec_extent(size) =~= "128x36"@);
            assert(spec_device_type(size) =~= "screened-128x36"@);
            assert(spec_frame_key(size) =~= "image-data-128x36"@);
        },
    }
}

/// Two different panels have different device types and different frame
/// keys.
pub proof fn lemma_panel_names_distinct(a: SteelSeriesLCDType, b: SteelSeriesLCDType)
    requires
        a != b,
    ensures
        spec_device_type(a.spec_dimensions()) != spec_device_type(b.spec_dimensions()),
        spec_frame_key(a.spec_dimensions()) != spec_frame_key(b.spec_dimensions()),
{
    lemma_panel_names(a);
    lemma_panel_names(b);
    reveal_strlit("screened-128x40");
    reveal_strlit("screened-128x48");
    reveal_strlit("screened-128x52");
    reveal_strlit("screened-128x36");
    reveal_strlit("image-data-128x40");
    reveal_strlit("image-data-128x48");
    reveal_strlit("image-data-128x52");
    reveal_strlit("image-data-128x36");
    let da = spec_device_type(a.spec_dimensions());
    let db = spec_device_type(b.spec_dimensions());
    assert(da[14] != db[14] || da[13] != db[13]);
    let ka = spec_frame_key(a.spec_dimensions());
    let kb = spec_frame_key(b.spec_dimensions());
    assert(ka[16] != kb[16] || ka[15] != kb[15]);
}

/// The four requests of the protocol.
#[derive(Clone, Copy, Debug, PartialEq, Eq, Structural)]
pub enum Endpoint {
    /// Registers the game and its metadata.
    GameMetadata,
    /// Binds the event to its screen handlers.
    BindGameEvent,
    /// Sends the event with one frame per panel.
    GameEvent,
    /// Keeps the session alive.
    GameHeartbeat,
}

impl Endpoint {
    /// The path of the request below the service's address.
    pub open spec fn spec_path(self) -> Seq<char> {
        match self {
            Endpoint::GameMetadata => "/game_metadata"@,
            Endpoint::BindGameEvent => "/bind_game_event"@,
            Endpoint::GameEvent => "/game_event"@,
            Endpoint::GameHeartbeat => "/game_heartbeat"@,
        }
    }

    /// The address that the request is posted to.
    pub open spec fn spec_url(self, address: Seq<char>) -> Seq<char> {
        "http://"@ + address + self.spec_path()
    }

    /// The path of the request below the service's address.
    pub fn path(&self) -> (path: &'static str)
        ensures
            path@ == self.spec_path(),
    {
        match self {
            Endpoint::GameMetadata => "/game_metadata",
            Endpoint::BindGameEvent => "/bind_game_event",
            Endpoint::GameEvent => "/game_event",
            Endpoint::GameHeartbeat => "/game_heartbeat",
        }
    }

    /// The address that the request is posted to, for a service that
    /// listens at `address` (host and port).
    pub fn url(&self, address: &str) -> (url: String)
        ensures
            url@ == self.spec_url(address@),
    {
        let mut url = String::from_str("http://");
        url.append(address);
        url.append(self.path());
        url
    }
}

/// How far a session has come with the service. The service expects a
/// registration, then a binding, then updates and heartbeats in any number.
/// Keeping to that order is up to the caller: nothing in this crate refuses
/// to build a request that comes too early.
#[derive(Clone, Copy, Debug, PartialEq, Eq, Structural)]
pub enum SessionState {
    /// Nothing was accepted yet.
    Unregistered,
    /// The registration was accepted.
    Registered,
    /// The binding was accepted: updates and heartbeats may follow.
    Bound,
}

impl SessionState {
    /// Whether the service expects this request in this state. A
    /// registration may come at any time; a binding needs a registration
    /// before it, an update or a heartbeat a binding.
    pub open spec fn spec_expects(self, endpoint: Endpoint) -> bool {
        match endpoint {
            Endpoint::GameMetadata => true,
            Endpoint::BindGameEvent => self != SessionState::Unregistered,
            Endpoint::GameEvent => self == SessionState::Bound,
            Endpoint::GameHeartbeat => self == SessionState::Bound,
        }
    }

    /// The state after the service accepted a request: the first
    /// registration leads to `Registered`, a binding after it to `Bound`,
    /// and everything else leaves the state as it is.
    pub open spec fn spec_after(self, endpoint: Endpoint) -> SessionState {
        match (self, endpoint) {
            (SessionState::Unregistered, Endpoint::GameMetadata) => SessionState::Registered,
            (SessionState::Registered, Endpoint::BindGameEvent) => SessionState::Bound,
            _ => self,
        }
    }

    /// Whether the service expects this request in this state.
    pub fn expects(&self, endpoint: Endpoint) -> (expected: bool)
        ensures
            expected == self.spec_expects(endpoint),
    {
        match endpoint {
            Endpoint::GameMetadata => true,
            Endpoint::BindGameEvent => !matches!(self, SessionState::Unregistered),
            Endpoint::GameEvent => matches!(self, SessionState::Bound),
            Endpoint::GameHeartbeat => matches!(self, SessionState::Bound),
        }
    }

    /// The state after the service accepted a request.
    pub fn after(&self, endpoint: Endpoint) -> (state: SessionState)
        ensures
            state == self.spec_after(endpoint),
    {
        match (self, endpoint) {
            (SessionState::Unregistered, Endpoint::GameMetadata) => SessionState::Registered,
            (SessionState::Registered, Endpoint::BindGameEvent) => SessionState::Bound,
            _ => *self,
        }
    }
}

/// A session that registers and then binds is bound, and each of the two
/// requests is expected when it comes.
pub proof fn lemma_register_then_bind()
    ensures
        SessionState::Unregistered.spec_expects(Endpoint::GameMetadata),
        SessionState::Unregistered.spec_after(Endpoint::GameMetadata).spec_expects(
            Endpoint::BindGameEvent,
        ),
        SessionState::Unregistered.spec_after(Endpoint::GameMetadata).spec_after(
            Endpoint::BindGameEvent,
        ) == SessionState::Bound,
{
}

/// A bound session stays bound whatever is sent, and expects every request.
pub proof fn lemma_bound_stays(endpoint: Endpoint)
    ensures
        SessionState::Bound.spec_expects(endpoint),
        SessionState::Bound.spec_after(endpoint) == SessionState::Bound,
{
}

/// A request that is expected leaves the session in a state that expects it
/// again: registering, binding and updating can each be repeated.
pub proof fn lemma_expected_again(state: SessionState, endpoint: Endpoint)
    requires
        state.spec_expects(endpoint),
    ensures
        state.spec_after(endpoint).spec_expects(endpoint),
{
}

/// A session never falls back: whatever is sent, what was expected before
/// is expected after.
pub proof fn lemma_never_falls_back(state: SessionState, sent: Endpoint, endpoint: Endpoint)
    requires
        state.spec_expects(endpoint),
    ensures
        state.spec_after(sent).spec_expects(endpoint),
{
}

} // verus!
