//! Sonar's own keyboard-shortcut events over the GG event socket (Windows):
//! which event each volume action sends, where the connection details are
//! found in Sonar's process environment, and the one retry after a lost
//! connection.

use vstd::prelude::*;
use crate::sonar::types::{PersonalVolumeAction, SonarError};
use crate::percent::optional_text;
use crate::text::{
    characters, joined, first_index, joined3, lemma_first_index_after, owned, range_matches_ignoring_ascii_case,
    same_ignoring_ascii_case,
};

verus! {

/// The id of Sonar's own shortcut for a Master - Personal action.
pub open spec fn shortcut_number(action: PersonalVolumeAction) -> u32 {
    match action {
        PersonalVolumeAction::StepUp => 22,
        PersonalVolumeAction::StepDown => 23,
        PersonalVolumeAction::ToggleMute => 24,
    }
}

/// The id of Sonar's own shortcut for a Master - Personal action.
pub fn shortcut_id(action: PersonalVolumeAction) -> (id: u32)
    ensures
        id == shortcut_number(action),
{
    match action {
        PersonalVolumeAction::StepUp => 22,
        PersonalVolumeAction::StepDown => 23,
        PersonalVolumeAction::ToggleMute => 24,
    }
}

/// The value of one `NAME=value` entry when its name is `key` ignoring ASCII
/// case; the name ends at the first `=`.
pub open spec fn entry_value(entry: Seq<char>, key: Seq<char>) -> Option<Seq<char>> {
    match first_index(entry, '='){
        Some(p) => if same_ignoring_ascii_case(entry.take(p), key) {
            Some(entry.skip(p + 1))
        } else {
            None
        },
        None => None,
    }
}

/// The value of the first entry named `key` (ignoring ASCII case) in a
/// Windows environment block, whose entries are separated by NUL.
pub open spec fn environment_lookup(block: Seq<char>, key: Seq<char>) -> Option<Seq<char>>
    decreases block.len(),
{
    match first_index(block, '\0') {
        None => entry_value(block, key),
        Some(n) => if 0 <= n < block.len() {
            match entry_value(block.take(n), key) {
                Some(value) => Some(value),
                None => environment_lookup(block.skip(n + 1), key),
            }
        } else {
            None
        },
    }
}

/// `first_index` finds a position holding the character.
proof fn lemma_first_index_bounds(text: Seq<char>, c: char)
    ensures
        first_index(text, c) matches Some(i) ==> 0 <= i < text.len() && text[i] == c,
    decreases text.len(),
{
    if text.len() > 0 && text[0] != c {
        lemma_first_index_bounds(text.drop_first(), c);
    }
}

/// The position of the `=` that ends the entry `chars[start..end]`, when the
/// entry's name is `key` ignoring ASCII case.
fn matching_entry(chars: &Vec<char>, start: usize, end: usize, key: &Vec<char>) -> (found: Option<usize>)
    requires
        start <= end <= chars@.len(),
    ensures
        found is Some <==> entry_value(chars@.subrange(start as int, end as int), key@) is Some,
        found matches Some(p) ==> start <= p < end && entry_value(chars@.subrange(start as int, end as int), key@)
            == Some(chars@.subrange(p + 1, end as int)),
{
    let ghost entry = chars@.subrange(start as int, end as int);
    let mut p: usize = start;
    while p < end && chars[p] != '='
        invariant
            start <= p <= end <= chars@.len(),
            entry == chars@.subrange(start as int, end as int),
            forall|j: int| 0 <= j < p - start ==> entry[j] != '=',
        decreases end - p,
    {
        p = p + 1;
    }
    proof {
        lemma_first_index_after(entry, '=', p - start);
        assert(entry.skip(p - start) =~= chars@.subrange(p as int, end as int));
        if p < end {
            assert(first_index(chars@.subrange(p as int, end as int), '=') == Some(0int));
        } else {
            assert(first_index(chars@.subrange(p as int, end as int), '=') == None::<int>);
        }
    }
    if p == end {
        return None;
    }
    if range_matches_ignoring_ascii_case(chars, start, p, key) {
        proof {
            assert(entry.take(p - start) =~= chars@.subrange(start as int, p as int));
            assert(entry.skip(p - start + 1) =~= chars@.subrange(p + 1, end as int));
        }
        Some(p)
    } else {
        proof {
            assert(entry.take(p - start) =~= chars@.subrange(start as int, p as int));
        }
        None
    }
}

/// The value of the first entry named `key`, ignoring ASCII case, in a
/// Windows environment block.
pub fn environment_value<'a>(environment: &'a str, key: &str) -> (value: Option<&'a str>)
    ensures
        match environment_lookup(environment@, key@) {
            Some(found) => value matches Some(text) && text@ == found,
            None => value is None,
        },
{
    let chars = characters(environment);
    let key_chars = characters(key);
    let mut start: usize = 0;
    let mut i: usize = 0;
    assert(environment@.skip(0) =~= environment@);
    loop
        invariant
            chars@ == environment@,
            key_chars@ == key@,
            start <= i <= chars@.len(),
            environment_lookup(environment@, key@) == environment_lookup(environment@.skip(start as int), key@),
            forall|j: int| start <= j < i ==> chars@[j] != '\0',
        decreases chars@.len() - i, chars@.len() - start,
    {
        if i < chars.len() && chars[i] != '\0' {
            i = i + 1;
        } else {
            let ghost rest = environment@.skip(start as int);
            proof {
                lemma_first_index_after(rest, '\0', i - start);
                assert(rest.skip(i - start) =~= environment@.skip(i as int));
                assert(rest.take(i - start) =~= environment@.subrange(start as int, i as int));
                if i < chars.len() {
                    assert(first_index(environment@.skip(i as int), '\0') == Some(0int));
                } else {
                    assert(first_index(environment@.skip(i as int), '\0') == None::<int>);
                    assert(rest =~= environment@.subrange(start as int, i as int));
                }
            }
            match matching_entry(&chars, start, i, &key_chars) {
                Some(p) => {
                    let found = environment.substring_char(p + 1, i);
                    return Some(found);
                },
                None => {
                    if i == chars.len() {
                        return None;
                    }
                    proof {
                        assert(rest.skip(i - start + 1) =~= environment@.skip(i + 1));
                    }
                    i = i + 1;
                    start = i;
                },
            }
        }
    }
}

/// The UTF-16 code units of a little-endian byte block; a trailing odd byte
/// is dropped.
pub open spec fn utf16_units(bytes: Seq<u8>) -> Seq<u16> {
    Seq::new((bytes.len() / 2) as nat, |k: int| (bytes[2 * k] as int + 256 * bytes[2 * k + 1] as int) as u16)
}

/// The first position, from `from` on, where two NUL units follow each other.
pub open spec fn first_double_nul(units: Seq<u16>, from: int) -> Option<int>
    decreases units.len() - from,
{
    if from < 0 || from + 1 >= units.len() {
        None
    } else if units[from] == 0 && units[from + 1] == 0 {
        Some(from)
    } else {
        first_double_nul(units, from + 1)
    }
}

/// How many units the environment block spans: through the first NUL of the
/// terminating pair, or all of them when there is none.
pub open spec fn environment_block_length(units: Seq<u16>) -> int {
    match first_double_nul(units, 0) {
        Some(k) => k + 1,
        None => units.len() as int,
    }
}

/// The character of a pair of UTF-16 surrogates.
pub open spec fn surrogate_pair_char(high: u16, low: u16) -> char {
    (0x10000 + (high - 0xD800) * 0x400 + (low - 0xDC00)) as char
}

/// The text that UTF-16 units spell, as `String::from_utf16` decodes them:
/// a unit outside `0xD800..=0xDFFF` is its own character, a high surrogate
/// followed by a low one is the character of the pair, and any other
/// surrogate makes the units invalid (`None`).
pub open spec fn utf16_decoded(units: Seq<u16>) -> Option<Seq<char>>
    decreases units.len(),
{
    if units.len() == 0 {
        Some(Seq::empty())
    } else if units[0] < 0xD800 || units[0] > 0xDFFF {
        match utf16_decoded(units.drop_first()) {
            Some(rest) => Some(seq![units[0] as char] + rest),
            None => None,
        }
    } else if units[0] <= 0xDBFF && units.len() >= 2 && 0xDC00 <= units[1] <= 0xDFFF {
        match utf16_decoded(units.skip(2)) {
            Some(rest) => Some(seq![surrogate_pair_char(units[0], units[1])] + rest),
            None => None,
        }
    } else {
        None
    }
}

/// Calls `String::from_utf16`, whose result the contract states.
#[verifier::external_body]
fn decode_utf16(units: &[u16]) -> (text: Option<String>)
    ensures
        optional_text(text) == utf16_decoded(units@),
{
    String::from_utf16(units).ok()
}

/// The text of the environment block read from Sonar's process memory: the
/// bytes as little-endian UTF-16, up to the terminating pair of NULs.
pub fn environment_text(bytes: &[u8]) -> (text: Option<String>)
    ensures
        optional_text(text) == utf16_decoded(utf16_units(bytes@).take(environment_block_length(utf16_units(bytes@)))),
{
    let length: usize = bytes.len();
    let count: usize = length / 2;
    let mut units: Vec<u16> = Vec::new();
    let mut k: usize = 0;
    while k < count
        invariant
            count == bytes@.len() / 2,
            length == bytes@.len(),
            k <= count,
            units@ == utf16_units(bytes@).take(k as int),
        decreases count - k,
    {
        assert(2 * k + 1 < bytes@.len()) by (nonlinear_arith)
            requires
                k < count,
                count == bytes@.len() / 2,
        ;
        let low = bytes[2 * k] as u16;
        let high = bytes[2 * k + 1] as u16;
        let unit: u16 = low + high * 256;
        units.push(unit);
        assert(units@ =~= utf16_units(bytes@).take(k + 1));
        k = k + 1;
    }
    assert(units@ =~= utf16_units(bytes@));
    let mut end: usize = 0;
    let mut position: usize = 0;
    let mut found = false;
    while position < units.len() && units.len() - position > 1 && !found
        invariant
            units@ == utf16_units(bytes@),
            position <= units@.len(),
            !found ==> first_double_nul(units@, 0) == first_double_nul(units@, position as int),
            found ==> first_double_nul(units@, 0) == Some(end - 1) && end <= units@.len(),
        decreases units@.len() - position, if found { 0int } else { 1int },
    {
        if units[position] == 0 && units[position + 1] == 0 {
            found = true;
            end = position + 1;
        } else {
            position = position + 1;
        }
    }
    if !found {
        end = units.len();
    }
    let block = slice_prefix(&units, end);
    decode_utf16(block.as_slice())
}

/// The first `count` elements of a vector.
fn slice_prefix(values: &Vec<u16>, count: usize) -> (prefix: Vec<u16>)
    requires
        count <= values@.len(),
    ensures
        prefix@ == values@.take(count as int),
{
    let mut prefix: Vec<u16> = Vec::new();
    let mut i: usize = 0;
    while i < count
        invariant
            i <= count <= values@.len(),
            prefix@ == values@.take(i as int),
        decreases count - i,
    {
        prefix.push(values[i]);
        assert(prefix@ =~= values@.take(i + 1));
        i = i + 1;
    }
    prefix
}

/// The GG event that runs Sonar's own shortcut for the action, as the JSON
/// text sent over the socket.
pub open spec fn shortcut_event_text(action: PersonalVolumeAction) -> Seq<char> {
    match action {
        PersonalVolumeAction::StepUp => "{\"data\":{\"shortcutId\":22},\"event\":\"EVENT_KEYBOARD_SHORTCUT\"}"@,
        PersonalVolumeAction::StepDown => "{\"data\":{\"shortcutId\":23},\"event\":\"EVENT_KEYBOARD_SHORTCUT\"}"@,
        PersonalVolumeAction::ToggleMute => "{\"data\":{\"shortcutId\":24},\"event\":\"EVENT_KEYBOARD_SHORTCUT\"}"@,
    }
}

/// The GG event that runs Sonar's own shortcut for the action.
pub fn shortcut_event_message(action: PersonalVolumeAction) -> (message: String)
    ensures
        message@ == shortcut_event_text(action),
{
    match action {
        PersonalVolumeAction::StepUp => owned("{\"data\":{\"shortcutId\":22},\"event\":\"EVENT_KEYBOARD_SHORTCUT\"}"),
        PersonalVolumeAction::StepDown => owned("{\"data\":{\"shortcutId\":23},\"event\":\"EVENT_KEYBOARD_SHORTCUT\"}"),
        PersonalVolumeAction::ToggleMute => owned("{\"data\":{\"shortcutId\":24},\"event\":\"EVENT_KEYBOARD_SHORTCUT\"}"),
    }
}

/// A lower-case hexadecimal digit.
pub open spec fn hex_digit(value: int) -> char {
    if value < 10 { (0x30 + value) as char } else { (0x61 + value - 10) as char }
}

/// How `serde_json` writes one character inside a string literal: `"` and
/// `\` after a backslash, the control characters with a short escape as
/// `\b`, `\t`, `\n`, `\f`, `\r`, the other control characters below
/// `0x20` as `\u00` and two lower-case hex digits, and every other
/// character as itself.
pub open spec fn json_char(c: char) -> Seq<char> {
    let code = c as int;
    if c == '"' {
        seq!['\\', '"']
    } else if c == '\\' {
        seq!['\\', '\\']
    } else if code == 0x08 {
        seq!['\\', 'b']
    } else if code == 0x09 {
        seq!['\\', 't']
    } else if code == 0x0A {
        seq!['\\', 'n']
    } else if code == 0x0C {
        seq!['\\', 'f']
    } else if code == 0x0D {
        seq!['\\', 'r']
    } else if code < 0x20 {
        seq!['\\', 'u', '0', '0', hex_digit(code / 16), hex_digit(code % 16)]
    } else {
        seq![c]
    }
}

/// The characters of a text as `serde_json` escapes them.
pub open spec fn json_escaped(text: Seq<char>) -> Seq<char>
    decreases text.len(),
{
    if text.len() == 0 {
        Seq::empty()
    } else {
        json_escaped(text.drop_last()) + json_char(text.last())
    }
}

/// The JSON string literal that `serde_json` writes for a text: the escaped
/// characters between double quotes.
pub open spec fn json_string(text: Seq<char>) -> Seq<char> {
    seq!['"'] + json_escaped(text) + seq!['"']
}

/// Calls `serde_json::to_string` on a text, whose result the contract states.
/// Writing a `str` into memory does not fail, so the empty text of the error
/// arm is never returned.
#[verifier::external_body]
fn json_quoted(text: &str) -> (quoted: String)
    ensures
        quoted@ == json_string(text@),
{
    match serde_json::to_string(text) {
        Ok(quoted) => quoted,
        Err(_) => String::new(),
    }
}

/// The GG event that authenticates the socket with the token.
pub fn authentication_message(token: &str) -> (message: String)
    ensures
        message@ == "{\"data\":{\"token\":"@ + json_string(token@) + "},\"event\":\"EVENT_SOCKET_AUTHENTICATION_TOKEN\"}"@,
{
    let quoted = json_quoted(token);
    joined3("{\"data\":{\"token\":", quoted.as_str(), "},\"event\":\"EVENT_SOCKET_AUTHENTICATION_TOKEN\"}")
}

/// Where the GG event socket is and how to authenticate on it.
#[derive(Clone, Debug, PartialEq, Eq)]
pub struct GgConnection {
    pub endpoint: String,
    pub token: String,
}

/// The GG event socket's endpoint and token from Sonar's environment block:
/// `GG_WS_ENDPOINT` and `GG_API_AUTH_TOKEN`, each required.
pub fn gg_connection(environment: &str) -> (found: Result<GgConnection, SonarError>)
    ensures
        match (environment_lookup(environment@, "GG_WS_ENDPOINT"@), environment_lookup(environment@, "GG_API_AUTH_TOKEN"@)) {
            (None, _) => found matches Err(SonarError::ApiChanged(detail))
                && detail@ == "Sonar 프로세스에 GG_WS_ENDPOINT가 없습니다"@,
            (Some(_), None) => found matches Err(SonarError::ApiChanged(detail))
                && detail@ == "Sonar 프로세스에 GG_API_AUTH_TOKEN이 없습니다"@,
            (Some(endpoint), Some(token)) => found matches Ok(connection)
                && connection.endpoint@ == endpoint && connection.token@ == token,
        },
{
    let endpoint = match environment_value(environment, "GG_WS_ENDPOINT") {
        Some(value) => owned(value),
        None => return Err(SonarError::ApiChanged(owned("Sonar 프로세스에 GG_WS_ENDPOINT가 없습니다"))),
    };
    let token = match environment_value(environment, "GG_API_AUTH_TOKEN") {
        Some(value) => owned(value),
        None => return Err(SonarError::ApiChanged(owned("Sonar 프로세스에 GG_API_AUTH_TOKEN이 없습니다"))),
    };
    Ok(GgConnection { endpoint, token })
}

/// The error for an environment block that could not be read.
pub fn environment_unreadable(detail: &str) -> (error: SonarError)
    ensures
        error matches SonarError::Verification(text)
            && text@ == "Sonar 프로세스의 GG 연결 정보를 읽지 못했습니다: "@ + detail@,
{
    SonarError::Verification(joined("Sonar 프로세스의 GG 연결 정보를 읽지 못했습니다: ", detail))
}

/// Outside work on the GG event socket.
#[derive(Debug)]
pub enum GgRequest {
    /// Open and authenticate a new socket.
    Connect,
    /// Send the text over the open socket.
    Send { message: String },
}

/// The outcome of outside work on the GG event socket.
#[derive(Debug)]
pub enum GgReply {
    Connected,
    ConnectFailed(SonarError),
    Sent,
    /// The send failed; the host program drops the socket.
    SendFailed,
}

/// What a delivery does next.
#[derive(Debug)]
pub enum GgStep {
    Request(GgRequest),
    Finished(Result<(), SonarError>),
}

/// Where a delivery stands.
#[derive(Clone, Copy, Debug, PartialEq, Eq, Structural)]
pub enum DeliveryStage {
    Connecting,
    Sending,
    Finished,
}

/// The detail of the error for an event that could not be delivered.
pub open spec fn undelivered_text() -> Seq<char> {
    "GG 단축키 이벤트를 Sonar에 전달하지 못했습니다"@
}

/// The operation that delivers a shortcut event: connect when there is no
/// socket, send, and on a failed send connect and send once more.
pub struct ShortcutDelivery {
    action: PersonalVolumeAction,
    stage: DeliveryStage,
    attempt: u8,
    sends: Ghost<nat>,
}

impl ShortcutDelivery {
    pub closed spec fn action(&self) -> PersonalVolumeAction {
        self.action
    }

    pub closed spec fn stage(&self) -> DeliveryStage {
        self.stage
    }

    /// Which attempt is under way: 0, or 1 after a failed send.
    pub closed spec fn attempt(&self) -> nat {
        self.attempt as nat
    }

    /// How many sends the delivery asked for.
    pub closed spec fn sends(&self) -> nat {
        self.sends@
    }

    /// At most two attempts, and one send per attempt.
    #[verifier::type_invariant]
    closed spec fn well_formed(&self) -> bool {
        &&& self.attempt <= 1
        &&& self.sends@ <= 2
        &&& self.stage == DeliveryStage::Connecting ==> self.sends@ == self.attempt as nat
        &&& self.stage == DeliveryStage::Sending ==> self.sends@ == self.attempt as nat + 1
    }

    /// A delivery of the action's event, and its first request: sending at
    /// once over an open socket, connecting otherwise.
    pub fn new(action: PersonalVolumeAction, connected: bool) -> (started: (Self, GgRequest))
        ensures
            started.0.action() == action,
            started.0.attempt() == 0,
            connected ==> started.0.stage() == DeliveryStage::Sending && started.0.sends() == 1
                && (started.1 matches GgRequest::Send { message } && message@ == shortcut_event_text(action)),
            !connected ==> started.0.stage() == DeliveryStage::Connecting && started.0.sends() == 0
                && started.1 is Connect,
    {
        if connected {
            (
                ShortcutDelivery { action, stage: DeliveryStage::Sending, attempt: 0, sends: Ghost(1) },
                GgRequest::Send { message: shortcut_event_message(action) },
            )
        } else {
            (
                ShortcutDelivery { action, stage: DeliveryStage::Connecting, attempt: 0, sends: Ghost(0) },
                GgRequest::Connect,
            )
        }
    }

    /// Takes the outcome of the pending request and says what comes next.
    /// A failed connection ends the delivery with its error; a failed send is
    /// retried once over a new connection, then ends it with `Verification`.
    pub fn step(&mut self, reply: GgReply) -> (next: GgStep)
        ensures
            final(self).action() == old(self).action(),
            final(self).sends() <= 2,
            next is Request && next->Request_0 is Send ==> final(self).sends() == old(self).sends() + 1
                && next->Request_0->Send_message@ == shortcut_event_text(old(self).action()),
            match (old(self).stage(), reply) {
                (DeliveryStage::Connecting, GgReply::Connected) => final(self).stage() == DeliveryStage::Sending
                    && final(self).attempt() == old(self).attempt()
                    && next is Request && next->Request_0 is Send,
                (DeliveryStage::Connecting, GgReply::ConnectFailed(error)) => final(self).stage() == DeliveryStage::Finished
                    && next == GgStep::Finished(Err(error)),
                (DeliveryStage::Sending, GgReply::Sent) => final(self).stage() == DeliveryStage::Finished
                    && next == GgStep::Finished(Ok(())),
                (DeliveryStage::Sending, GgReply::SendFailed) => if old(self).attempt() == 0 {
                    final(self).stage() == DeliveryStage::Connecting && final(self).attempt() == 1
                        && next == GgStep::Request(GgRequest::Connect)
                } else {
                    final(self).stage() == DeliveryStage::Finished
                        && (next matches GgStep::Finished(Err(SonarError::Verification(detail)))
                        && detail@ == undelivered_text())
                },
                _ => final(self).stage() == DeliveryStage::Finished
                    && (next matches GgStep::Finished(Err(SonarError::ApiChanged(detail)))
                    && detail@ == crate::sonar::protocol::unexpected_reply_text()),
            },
    {
        proof {
            use_type_invariant(&*self);
        }
        match (self.stage, reply) {
            (DeliveryStage::Connecting, GgReply::Connected) => {
                let action = self.action;
                let attempt = self.attempt;
                let sends = Ghost(self.sends@ + 1);
                *self = ShortcutDelivery { action, stage: DeliveryStage::Sending, attempt, sends };
                GgStep::Request(GgRequest::Send { message: shortcut_event_message(self.action) })
            },
            (DeliveryStage::Connecting, GgReply::ConnectFailed(error)) => {
                self.stage = DeliveryStage::Finished;
                GgStep::Finished(Err(error))
            },
            (DeliveryStage::Sending, GgReply::Sent) => {
                self.stage = DeliveryStage::Finished;
                GgStep::Finished(Ok(()))
            },
            (DeliveryStage::Sending, GgReply::SendFailed) => {
                if self.attempt == 0 {
                    let action = self.action;
                    let sends = Ghost(self.sends@);
                    *self = ShortcutDelivery { action, stage: DeliveryStage::Connecting, attempt: 1, sends };
                    GgStep::Request(GgRequest::Connect)
                } else {
                    self.stage = DeliveryStage::Finished;
                    GgStep::Finished(Err(SonarError::Verification(owned("GG 단축키 이벤트를 Sonar에 전달하지 못했습니다"))))
                }
            },
            _ => {
                self.stage = DeliveryStage::Finished;
                GgStep::Finished(Err(SonarError::ApiChanged(owned("Sonar 요청과 맞지 않는 응답을 받았습니다"))))
            },
        }
    }
}

} // verus!
