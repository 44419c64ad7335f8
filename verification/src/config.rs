//! The configuration of an HTTP/3 connection and the SETTINGS it announces.
use vstd::prelude::*;

use crate::frame::{
    self, SettingId, SettingsError, lookup, has_id, insert_all, distinct_ids, lemma_lookup, lemma_lookup_append,
    lemma_insert_all, spec_insert, is_grease,
    SETTINGS_LEN, MAX_HEADER_LIST_SIZE, ENABLE_CONNECT_PROTOCOL, ENABLE_WEBTRANSPORT, H3_DATAGRAM,
    WEBTRANSPORT_MAX_SESSIONS, QPACK_MAX_TABLE_CAPACITY, QPACK_MAX_BLOCKED_STREAMS,
};

verus! {

/// The largest value of a QUIC variable-length integer, `2^62 - 1`.
pub const VARINT_MAX: u64 = 0x3fff_ffff_ffff_ffff;

/// HTTP/3 Settings
#[derive(Debug, Clone, Copy, PartialEq, Eq, Structural)]
pub struct Settings {
    /// SETTINGS_MAX_FIELD_SECTION_SIZE: the largest field section (header
    /// block) the endpoint accepts.
    pub max_field_section_size: u64,
    /// Sets `SETTINGS_ENABLE_WEBTRANSPORT` if enabled.
    pub enable_webtransport: bool,
    /// SETTINGS_ENABLE_CONNECT_PROTOCOL: extended CONNECT (RFC 8441, RFC 9220).
    pub enable_extended_connect: bool,
    /// HTTP Datagrams (RFC 9297).
    pub enable_datagram: bool,
    /// The maximum number of concurrent WebTransport sessions.
    pub max_webtransport_sessions: u64,
    /// SETTINGS_QPACK_MAX_TABLE_CAPACITY (0x1): the QPACK dynamic table
    /// capacity the encoder is permitted to use, in bytes. `None` omits the
    /// setting, so that the protocol default of 0 applies.
    pub qpack_max_table_capacity: Option<u64>,
    /// SETTINGS_QPACK_BLOCKED_STREAMS (0x7): the number of blocked streams
    /// the decoder tolerates. `None` omits the setting, so that the protocol
    /// default of 0 applies.
    pub qpack_blocked_streams: Option<u64>,
}

/// The settings an endpoint has before it hears otherwise.
pub open spec fn default_settings() -> Settings {
    Settings {
        max_field_section_size: VARINT_MAX,
        enable_webtransport: false,
        enable_extended_connect: false,
        enable_datagram: false,
        max_webtransport_sessions: 0,
        qpack_max_table_capacity: None,
        qpack_blocked_streams: None,
    }
}

impl Default for Settings {
    fn default() -> (s: Self)
        ensures
            s == default_settings(),
    {
        Settings {
            max_field_section_size: VARINT_MAX,
            enable_webtransport: false,
            enable_extended_connect: false,
            enable_datagram: false,
            max_webtransport_sessions: 0,
            qpack_max_table_capacity: None,
            qpack_blocked_streams: None,
        }
    }
}

/// `true` is sent as 1 and `false` as 0.
pub open spec fn bool_code(b: bool) -> u64 {
    if b {
        1
    } else {
        0
    }
}

/// A flag read from the value of an entry: any value but 0 enables it.
pub open spec fn flag_of(v: Option<u64>) -> bool {
    match v {
        Some(x) => x != 0,
        None => false,
    }
}

/// A number read from the value of an entry, `default` where it is absent.
pub open spec fn number_of(v: Option<u64>, default: u64) -> u64 {
    match v {
        Some(x) => x,
        None => default,
    }
}

/// The settings that the SETTINGS entries `e` announce; a setting that no
/// entry names keeps its default.
pub open spec fn settings_from_entries(e: Seq<(SettingId, u64)>) -> Settings {
    Settings {
        max_field_section_size: number_of(lookup(e, SettingId(MAX_HEADER_LIST_SIZE)), VARINT_MAX),
        enable_webtransport: flag_of(lookup(e, SettingId(ENABLE_WEBTRANSPORT))),
        enable_extended_connect: flag_of(lookup(e, SettingId(ENABLE_CONNECT_PROTOCOL))),
        enable_datagram: flag_of(lookup(e, SettingId(H3_DATAGRAM))),
        max_webtransport_sessions: number_of(lookup(e, SettingId(WEBTRANSPORT_MAX_SESSIONS)), 0),
        qpack_max_table_capacity: lookup(e, SettingId(QPACK_MAX_TABLE_CAPACITY)),
        qpack_blocked_streams: lookup(e, SettingId(QPACK_MAX_BLOCKED_STREAMS)),
    }
}

fn flag(v: Option<u64>) -> (b: bool)
    ensures
        b == flag_of(v),
{
    match v {
        Some(x) => x != 0,
        None => false,
    }
}

fn number(v: Option<u64>, default: u64) -> (n: u64)
    ensures
        n == number_of(v, default),
{
    match v {
        Some(x) => x,
        None => default,
    }
}

fn code(b: bool) -> (c: u64)
    ensures
        c == bool_code(b),
{
    if b {
        1
    } else {
        0
    }
}

impl<'a> From<&'a frame::Settings> for Settings {
    fn from(settings: &'a frame::Settings) -> (s: Self) {
        Settings::from_frame(settings)
    }
}

impl<'a> vstd::std_specs::convert::FromSpecImpl<&'a frame::Settings> for Settings {
    open spec fn obeys_from_spec() -> bool {
        true
    }

    open spec fn from_spec(settings: &'a frame::Settings) -> Self {
        settings_from_entries(settings@)
    }
}

impl Settings {
    /// The settings that a received SETTINGS frame announces.
    pub fn from_frame(settings: &frame::Settings) -> (s: Settings)
        ensures
            s == settings_from_entries(settings@),
    {
        Settings {
            max_field_section_size: number(settings.get(SettingId(MAX_HEADER_LIST_SIZE)), VARINT_MAX),
            enable_webtransport: flag(settings.get(SettingId(ENABLE_WEBTRANSPORT))),
            max_webtransport_sessions: number(settings.get(SettingId(WEBTRANSPORT_MAX_SESSIONS)), 0),
            enable_datagram: flag(settings.get(SettingId(H3_DATAGRAM))),
            enable_extended_connect: flag(settings.get(SettingId(ENABLE_CONNECT_PROTOCOL))),
            qpack_max_table_capacity: settings.get(SettingId(QPACK_MAX_TABLE_CAPACITY)),
            qpack_blocked_streams: settings.get(SettingId(QPACK_MAX_BLOCKED_STREAMS)),
        }
    }

    /// Sets `SETTINGS_ENABLE_WEBTRANSPORT` if enabled
    pub fn enable_webtransport(&self) -> (b: bool)
        ensures
            b == self.enable_webtransport,
    {
        self.enable_webtransport
    }

    /// Enable HTTP Datagrams, see RFC 9297 for details
    pub fn enable_datagram(&self) -> (b: bool)
        ensures
            b == self.enable_datagram,
    {
        self.enable_datagram
    }

    /// Extended CONNECT (RFC 8441, section 4), enabled by the
    /// SETTINGS_ENABLE_CONNECT_PROTOCOL parameter.
    pub fn enable_extended_connect(&self) -> (b: bool)
        ensures
            b == self.enable_extended_connect,
    {
        self.enable_extended_connect
    }
}

/// Configures the HTTP/3 connection
#[derive(Debug, Clone)]
#[non_exhaustive]
pub struct Config {
    /// Whether a GREASE setting (RFC 9114, section 7.2.4.1) is announced, so
    /// that peers keep ignoring identifiers they do not know.
    pub send_grease: bool,
    /// Whether the SETTINGS frame is sent at all.
    pub send_settings: bool,
    /// When set, the exact order of the entries of the SETTINGS frame. The
    /// value of each identifier is taken from the known settings or from
    /// `extra_settings`; one that has none is left out.
    pub settings_order: Option<Vec<SettingId>>,
    /// Arbitrary (id, value) entries for settings the typed fields do not
    /// cover. Without `settings_order` they are sent after the known ones.
    pub extra_settings: Vec<(SettingId, u64)>,
    /// HTTP/3 Settings
    pub settings: Settings,
}

/// The configuration a connection has unless told otherwise.
pub open spec fn is_default_config(c: Config) -> bool {
    &&& c.send_grease
    &&& c.send_settings
    &&& c.settings_order is None
    &&& c.extra_settings@ == Seq::<(SettingId, u64)>::empty()
    &&& c.settings == default_settings()
}

impl Default for Config {
    fn default() -> (c: Self)
        ensures
            is_default_config(c),
    {
        Config {
            send_grease: true,
            send_settings: true,
            settings_order: None,
            extra_settings: Vec::new(),
            settings: Settings::default(),
        }
    }
}

/// The value `c` gives the setting `id`: that of the typed field for the
/// identifiers those cover, else that of the first of `extra_settings`
/// with this identifier.
pub open spec fn resolved_value(c: Config, id: SettingId) -> Option<u64> {
    if id.0 == MAX_HEADER_LIST_SIZE {
        Some(c.settings.max_field_section_size)
    } else if id.0 == ENABLE_CONNECT_PROTOCOL {
        Some(bool_code(c.settings.enable_extended_connect))
    } else if id.0 == ENABLE_WEBTRANSPORT {
        Some(bool_code(c.settings.enable_webtransport))
    } else if id.0 == H3_DATAGRAM {
        Some(bool_code(c.settings.enable_datagram))
    } else if id.0 == WEBTRANSPORT_MAX_SESSIONS {
        Some(c.settings.max_webtransport_sessions)
    } else if id.0 == QPACK_MAX_TABLE_CAPACITY {
        c.settings.qpack_max_table_capacity
    } else if id.0 == QPACK_MAX_BLOCKED_STREAMS {
        c.settings.qpack_blocked_streams
    } else {
        lookup(c.extra_settings@, id)
    }
}

/// The entry `(id, value)` where there is a value, nothing where there is none.
pub open spec fn optional_entry(id: SettingId, value: Option<u64>) -> Seq<(SettingId, u64)> {
    match value {
        Some(v) => seq![(id, v)],
        None => Seq::empty(),
    }
}

/// The entries of the known settings, in the order they are sent when no
/// order is given.
pub open spec fn known_entries(s: Settings) -> Seq<(SettingId, u64)> {
    seq![
        (SettingId(MAX_HEADER_LIST_SIZE), s.max_field_section_size),
        (SettingId(ENABLE_CONNECT_PROTOCOL), bool_code(s.enable_extended_connect)),
        (SettingId(ENABLE_WEBTRANSPORT), bool_code(s.enable_webtransport)),
        (SettingId(H3_DATAGRAM), bool_code(s.enable_datagram)),
        (SettingId(WEBTRANSPORT_MAX_SESSIONS), s.max_webtransport_sessions),
    ] + optional_entry(SettingId(QPACK_MAX_TABLE_CAPACITY), s.qpack_max_table_capacity)
        + optional_entry(SettingId(QPACK_MAX_BLOCKED_STREAMS), s.qpack_blocked_streams)
}

/// The entries for the identifiers of `order`, in that order, each with
/// the value `c` gives it; an identifier without a value is left out.
pub open spec fn ordered_entries(c: Config, order: Seq<SettingId>) -> Seq<(SettingId, u64)>
    decreases order.len(),
{
    if order.len() == 0 {
        Seq::empty()
    } else {
        ordered_entries(c, order.drop_last()) + optional_entry(
            order.last(),
            resolved_value(c, order.last()),
        )
    }
}

/// The entries `c` asks for, before any GREASE entry: those of
/// `settings_order` when it is set, else the known settings followed by
/// `extra_settings`.
pub open spec fn planned_entries(c: Config) -> Seq<(SettingId, u64)> {
    match c.settings_order {
        Some(order) => ordered_entries(c, order@),
        None => known_entries(c.settings) + c.extra_settings@,
    }
}

/// `s` with the GREASE entry `(grease, 0)` appended when `send_grease`
/// holds; where the entry cannot be added, `s` is left as it is.
pub open spec fn with_grease(s: Seq<(SettingId, u64)>, send_grease: bool, grease: SettingId) -> Seq<
    (SettingId, u64),
> {
    if send_grease {
        match spec_insert(s, grease, 0) {
            Ok(t) => t,
            Err(_) => s,
        }
    } else {
        s
    }
}

/// The entries of the SETTINGS frame that `c` gives with the GREASE
/// identifier `grease`, or the error that stops it.
pub open spec fn frame_entries(c: Config, grease: SettingId) -> Result<
    Seq<(SettingId, u64)>,
    SettingsError,
> {
    match insert_all(Seq::empty(), planned_entries(c)) {
        Ok(s) => Ok(with_grease(s, c.send_grease, grease)),
        Err(e) => Err(e),
    }
}

impl Config {
    /// Resolve the value for a given setting ID from known settings fields
    /// or extra_settings.
    #[verifier::loop_isolation(false)]
    pub fn resolve_setting_value(&self, id: &SettingId) -> (r: Option<u64>)
        ensures
            r == resolved_value(*self, *id),
    {
        let code_of_id = id.0;
        if code_of_id == MAX_HEADER_LIST_SIZE {
            Some(self.settings.max_field_section_size)
        } else if code_of_id == ENABLE_CONNECT_PROTOCOL {
            Some(code(self.settings.enable_extended_connect))
        } else if code_of_id == ENABLE_WEBTRANSPORT {
            Some(code(self.settings.enable_webtransport))
        } else if code_of_id == H3_DATAGRAM {
            Some(code(self.settings.enable_datagram))
        } else if code_of_id == WEBTRANSPORT_MAX_SESSIONS {
            Some(self.settings.max_webtransport_sessions)
        } else if code_of_id == QPACK_MAX_TABLE_CAPACITY {
            self.settings.qpack_max_table_capacity
        } else if code_of_id == QPACK_MAX_BLOCKED_STREAMS {
            self.settings.qpack_blocked_streams
        } else {
            let n = self.extra_settings.len();
            let mut i: usize = 0;
            assert(self.extra_settings@.skip(0) =~= self.extra_settings@);
            while i < n
                invariant
                    n == self.extra_settings@.len(),
                    0 <= i <= n,
                    lookup(self.extra_settings@, *id) == lookup(
                        self.extra_settings@.skip(i as int),
                        *id,
                    ),
                decreases n - i,
            {
                assert(self.extra_settings@.skip(i as int).drop_first() =~= self.extra_settings@.skip(
                    i + 1,
                ));
                if self.extra_settings[i].0.0 == code_of_id {
                    return Some(self.extra_settings[i].1);
                }
                i = i + 1;
            }
            None
        }
    }

    /// The entries this configuration asks for, before any GREASE entry.
    fn planned(&self) -> (p: Vec<(SettingId, u64)>)
        ensures
            p@ == planned_entries(*self),
    {
        let mut planned: Vec<(SettingId, u64)> = Vec::new();
        match &self.settings_order {
            Some(order) => {
                let n = order.len();
                let mut i: usize = 0;
                while i < n
                    invariant
                        n == order@.len(),
                        0 <= i <= n,
                        planned@ == ordered_entries(*self, order@.take(i as int)),
                    decreases n - i,
                {
                    assert(order@.take(i + 1).drop_last() =~= order@.take(i as int));
                    let id = order[i];
                    match self.resolve_setting_value(&id) {
                        Some(v) => {
                            planned.push((id, v));
                        },
                        None => {},
                    }
                    assert(planned@ =~= ordered_entries(*self, order@.take(i + 1)));
                    i = i + 1;
                }
                assert(order@.take(n as int) =~= order@);
            },
            None => {
                let s = self.settings;
                planned.push((SettingId(MAX_HEADER_LIST_SIZE), s.max_field_section_size));
                planned.push((SettingId(ENABLE_CONNECT_PROTOCOL), code(s.enable_extended_connect)));
                planned.push((SettingId(ENABLE_WEBTRANSPORT), code(s.enable_webtransport)));
                planned.push((SettingId(H3_DATAGRAM), code(s.enable_datagram)));
                planned.push((SettingId(WEBTRANSPORT_MAX_SESSIONS), s.max_webtransport_sessions));
                match s.qpack_max_table_capacity {
                    Some(v) => planned.push((SettingId(QPACK_MAX_TABLE_CAPACITY), v)),
                    None => {},
                }
                match s.qpack_blocked_streams {
                    Some(v) => planned.push((SettingId(QPACK_MAX_BLOCKED_STREAMS), v)),
                    None => {},
                }
                assert(planned@ =~= known_entries(s));
                let n = self.extra_settings.len();
                let mut i: usize = 0;
                while i < n
                    invariant
                        n == self.extra_settings@.len(),
                        0 <= i <= n,
                        planned@ == known_entries(self.settings) + self.extra_settings@.take(
                            i as int,
                        ),
                    decreases n - i,
                {
                    planned.push(self.extra_settings[i]);
                    assert(known_entries(self.settings) + self.extra_settings@.take(i + 1) =~= (
                    known_entries(self.settings) + self.extra_settings@.take(i as int)).push(
                        self.extra_settings@[i as int],
                    ));
                    i = i + 1;
                }
                assert(self.extra_settings@.take(n as int) =~= self.extra_settings@);
            },
        }
        planned
    }

    /// The SETTINGS frame this configuration announces, with `grease` as
    /// the identifier of its GREASE entry.
    pub fn settings_with_grease(&self, grease: SettingId) -> (r: Result<
        frame::Settings,
        SettingsError,
    >)
        ensures
            match frame_entries(*self, grease) {
                Ok(e) => r matches Ok(f) && f@ == e,
                Err(e) => r == Err::<frame::Settings, SettingsError>(e),
            },
    {
        let planned = self.planned();
        let mut settings = frame::Settings::new();
        match settings.insert_each(planned.as_slice()) {
            Ok(()) => {},
            Err(e) => {
                return Err(e);
            },
        }
        if self.send_grease {
            // A GREASE entry that cannot be added is left out.
            let _ = settings.insert(grease, 0);
        }
        Ok(settings)
    }
}

impl frame::Settings {
    /// The SETTINGS frame that `value` announces. Without `settings_order`
    /// it holds the known settings, then `extra_settings`; with it, the
    /// entries in that order. When `send_grease` holds, a GREASE entry with
    /// a random identifier follows all others. Fails with the first error
    /// of adding the entries, but never because of the GREASE entry.
    pub fn try_from_config(value: Config) -> (r: Result<frame::Settings, SettingsError>)
        ensures
            match insert_all(Seq::empty(), planned_entries(value)) {
                Ok(s) => r matches Ok(f) && exists|g: SettingId|
                    #![trigger is_grease(g)]
                    is_grease(g) && f@ == with_grease(s, value.send_grease, g),
                Err(e) => r == Err::<frame::Settings, SettingsError>(e),
            },
    {
        let grease = SettingId::grease();
        value.settings_with_grease(grease)
    }
}

/// The identifiers the typed fields of `Settings` cover.
pub open spec fn is_known_id(id: SettingId) -> bool {
    ||| id.0 == MAX_HEADER_LIST_SIZE
    ||| id.0 == ENABLE_CONNECT_PROTOCOL
    ||| id.0 == ENABLE_WEBTRANSPORT
    ||| id.0 == H3_DATAGRAM
    ||| id.0 == WEBTRANSPORT_MAX_SESSIONS
    ||| id.0 == QPACK_MAX_TABLE_CAPACITY
    ||| id.0 == QPACK_MAX_BLOCKED_STREAMS
}

/// No GREASE identifier is one that a typed setting uses.
pub proof fn law_grease_is_not_known(g: SettingId)
    requires
        is_grease(g),
    ensures
        !is_known_id(g),
{
}

/// A peer that announces nothing has the default settings.
pub proof fn law_empty_frame_gives_defaults()
    ensures
        settings_from_entries(Seq::empty()) == default_settings(),
{
}

/// Without `settings_order`, a peer that reads the SETTINGS frame a
/// configuration announces gets back exactly its settings, provided
/// `extra_settings` does not repeat an identifier that a typed setting
/// covers.
pub proof fn law_default_round_trip(c: Config, grease: SettingId)
    requires
        c.settings_order is None,
        is_grease(grease),
        forall|i: int|
            0 <= i < c.extra_settings@.len() ==> !is_known_id(#[trigger] c.extra_settings@[i].0),
        frame_entries(c, grease) is Ok,
    ensures
        settings_from_entries(frame_entries(c, grease)->Ok_0) == c.settings,
{
    let p = planned_entries(c);
    let known = known_entries(c.settings);
    let extras = c.extra_settings@;
    lemma_insert_all(Seq::empty(), p);
    assert(Seq::<(SettingId, u64)>::empty() + p =~= p);
    let f = frame_entries(c, grease)->Ok_0;
    let tail = if f.len() == p.len() {
        extras
    } else {
        extras.push((grease, 0))
    };
    assert(f =~= known + tail);
    assert forall|k: SettingId| is_known_id(k) implies !#[trigger] has_id(tail, k) by {
        if has_id(tail, k) {
            let i = choose|i: int| 0 <= i < tail.len() && (#[trigger] tail[i]).0 == k;
            if i < extras.len() {
                assert(tail[i] == extras[i]);
            }
        }
    }
    assert forall|k: SettingId| is_known_id(k) implies #[trigger] lookup(f, k) == lookup(known, k)
        by {
        lemma_lookup_append(known, tail, k);
        lemma_lookup(known, k);
        lemma_lookup(tail, k);
    }
    lemma_known_lookup(c.settings);
    assert(lookup(f, SettingId(MAX_HEADER_LIST_SIZE)) == lookup(known, SettingId(MAX_HEADER_LIST_SIZE)));
    assert(lookup(f, SettingId(ENABLE_CONNECT_PROTOCOL)) == lookup(known, SettingId(ENABLE_CONNECT_PROTOCOL)));
    assert(lookup(f, SettingId(ENABLE_WEBTRANSPORT)) == lookup(known, SettingId(ENABLE_WEBTRANSPORT)));
    assert(lookup(f, SettingId(H3_DATAGRAM)) == lookup(known, SettingId(H3_DATAGRAM)));
    assert(lookup(f, SettingId(WEBTRANSPORT_MAX_SESSIONS)) == lookup(known, SettingId(WEBTRANSPORT_MAX_SESSIONS)));
    assert(lookup(f, SettingId(QPACK_MAX_TABLE_CAPACITY)) == lookup(known, SettingId(QPACK_MAX_TABLE_CAPACITY)));
    assert(lookup(f, SettingId(QPACK_MAX_BLOCKED_STREAMS)) == lookup(known, SettingId(QPACK_MAX_BLOCKED_STREAMS)));
}

/// What the entries of the known settings read back as.
proof fn lemma_known_lookup(s: Settings)
    ensures
        lookup(known_entries(s), SettingId(MAX_HEADER_LIST_SIZE)) == Some(s.max_field_section_size),
        lookup(known_entries(s), SettingId(ENABLE_CONNECT_PROTOCOL)) == Some(bool_code(s.enable_extended_connect)),
        lookup(known_entries(s), SettingId(ENABLE_WEBTRANSPORT)) == Some(bool_code(s.enable_webtransport)),
        lookup(known_entries(s), SettingId(H3_DATAGRAM)) == Some(bool_code(s.enable_datagram)),
        lookup(known_entries(s), SettingId(WEBTRANSPORT_MAX_SESSIONS)) == Some(s.max_webtransport_sessions),
        lookup(known_entries(s), SettingId(QPACK_MAX_TABLE_CAPACITY)) == s.qpack_max_table_capacity,
        lookup(known_entries(s), SettingId(QPACK_MAX_BLOCKED_STREAMS)) == s.qpack_blocked_streams,
{
    reveal_with_fuel(lookup, 8);
    let k = known_entries(s);
    let a = optional_entry(SettingId(QPACK_MAX_TABLE_CAPACITY), s.qpack_max_table_capacity);
    let b = optional_entry(SettingId(QPACK_MAX_BLOCKED_STREAMS), s.qpack_blocked_streams);
    assert(k.len() == 5 + a.len() + b.len());
    assert(k.drop_first().drop_first().drop_first().drop_first().drop_first() =~= a + b);
    assert((a + b).len() == 0 || (a + b)[0].0 != SettingId(QPACK_MAX_BLOCKED_STREAMS) || a.len() == 0);
    if a.len() > 0 {
        assert((a + b).drop_first() =~= b);
    } else {
        assert(a + b =~= b);
    }
}

/// Each entry of `ordered_entries(c, order)` holds the value `c` gives its
/// identifier, and each identifier of `order` that has a value has an entry.
pub proof fn lemma_ordered_entries(c: Config, order: Seq<SettingId>, id: SettingId)
    ensures
        forall|i: int|
            0 <= i < ordered_entries(c, order).len() ==> resolved_value(
                c,
                (#[trigger] ordered_entries(c, order)[i]).0,
            ) == Some(ordered_entries(c, order)[i].1),
        order.contains(id) && resolved_value(c, id) is Some ==> has_id(ordered_entries(c, order), id),
    decreases order.len(),
{
    if order.len() > 0 {
        let init = order.drop_last();
        lemma_ordered_entries(c, init, id);
        let prev = ordered_entries(c, init);
        let add = optional_entry(order.last(), resolved_value(c, order.last()));
        let all = ordered_entries(c, order);
        assert(all == prev + add);
        assert forall|i: int| 0 <= i < all.len() implies resolved_value(c, (#[trigger] all[i]).0)
            == Some(all[i].1) by {
            if i < prev.len() {
                assert(all[i] == prev[i]);
            }
        }
        if order.contains(id) && resolved_value(c, id) is Some {
            if id == order.last() {
                assert(all[prev.len() as int].0 == id);
            } else {
                let j = choose|j: int| 0 <= j < order.len() && order[j] == id;
                assert(init[j] == id);
                let i = choose|i: int| 0 <= i < prev.len() && (#[trigger] prev[i]).0 == id;
                assert(all[i] == prev[i]);
            }
        }
    }
}

/// With `settings_order`, every identifier of the order that the
/// configuration gives a value reads back, from the SETTINGS frame it
/// announces, as that value.
pub proof fn law_ordered_round_trip(c: Config, grease: SettingId, id: SettingId)
    requires
        c.settings_order is Some,
        c.settings_order->0@.contains(id),
        resolved_value(c, id) is Some,
        frame_entries(c, grease) is Ok,
    ensures
        lookup(frame_entries(c, grease)->Ok_0, id) == resolved_value(c, id),
{
    let p = planned_entries(c);
    lemma_insert_all(Seq::empty(), p);
    assert(Seq::<(SettingId, u64)>::empty() + p =~= p);
    lemma_ordered_entries(c, c.settings_order->0@, id);
    let f = frame_entries(c, grease)->Ok_0;
    let tail = if f.len() == p.len() {
        Seq::<(SettingId, u64)>::empty()
    } else {
        seq![(grease, 0u64)]
    };
    assert(f =~= p + tail);
    lemma_lookup_append(p, tail, id);
    lemma_lookup(p, id);
}

/// The SETTINGS frame of a configuration can be built exactly when the
/// entries it asks for have distinct identifiers and number at most
/// `SETTINGS_LEN`; it then holds those entries in that order, followed by
/// the GREASE entry where one is sent.
pub proof fn law_frame_succeeds_iff(c: Config, grease: SettingId)
    ensures
        frame_entries(c, grease) is Ok <==> (distinct_ids(planned_entries(c))
            && planned_entries(c).len() <= SETTINGS_LEN),
        frame_entries(c, grease) is Ok ==> frame_entries(c, grease)->Ok_0 == with_grease(
            planned_entries(c),
            c.send_grease,
            grease,
        ),
{
    let p = planned_entries(c);
    lemma_insert_all(Seq::empty(), p);
    assert(Seq::<(SettingId, u64)>::empty() + p =~= p);
}

/// With `send_grease`, the GREASE entry comes after all other entries,
/// whenever the frame has room for it and no other entry has its
/// identifier.
pub proof fn law_grease_is_last(c: Config, grease: SettingId)
    requires
        c.send_grease,
        frame_entries(c, grease) is Ok,
        planned_entries(c).len() < SETTINGS_LEN,
        !has_id(planned_entries(c), grease),
    ensures
        frame_entries(c, grease)->Ok_0 == planned_entries(c).push((grease, 0)),
{
    law_frame_succeeds_iff(c, grease);
}

/// Each identifier that a typed setting covers resolves to the encoding of
/// exactly that setting: its number, 1 or 0 for its flag, or its optional
/// QPACK value; no other field decides it.
pub proof fn law_resolve_known_settings(c: Config)
    ensures
        resolved_value(c, SettingId(MAX_HEADER_LIST_SIZE)) == Some(c.settings.max_field_section_size),
        resolved_value(c, SettingId(ENABLE_CONNECT_PROTOCOL)) == Some(
            if c.settings.enable_extended_connect { 1u64 } else { 0u64 },
        ),
        resolved_value(c, SettingId(ENABLE_WEBTRANSPORT)) == Some(
            if c.settings.enable_webtransport { 1u64 } else { 0u64 },
        ),
        resolved_value(c, SettingId(H3_DATAGRAM)) == Some(
            if c.settings.enable_datagram { 1u64 } else { 0u64 },
        ),
        resolved_value(c, SettingId(WEBTRANSPORT_MAX_SESSIONS)) == Some(
            c.settings.max_webtransport_sessions,
        ),
        resolved_value(c, SettingId(QPACK_MAX_TABLE_CAPACITY)) == c.settings.qpack_max_table_capacity,
        resolved_value(c, SettingId(QPACK_MAX_BLOCKED_STREAMS)) == c.settings.qpack_blocked_streams,
        forall|id: SettingId| !is_known_id(id) ==> #[trigger] resolved_value(c, id) == lookup(
            c.extra_settings@,
            id,
        ),
{
}

/// Each setting read from a frame depends only on the entry of its own
/// identifier: an absent entry gives the default (no header size limit,
/// flags off, no sessions, QPACK settings omitted), whatever the other
/// entries are; a present entry gives its value, a flag being on exactly
/// when the value is not 0.
pub proof fn law_read_setting_from_its_own_entry(e: Seq<(SettingId, u64)>)
    ensures
        lookup(e, SettingId(MAX_HEADER_LIST_SIZE)) is None ==> settings_from_entries(
            e,
        ).max_field_section_size == 0x3fff_ffff_ffff_ffffu64,
        lookup(e, SettingId(MAX_HEADER_LIST_SIZE)) matches Some(v) ==> settings_from_entries(
            e,
        ).max_field_section_size == v,
        lookup(e, SettingId(ENABLE_WEBTRANSPORT)) is None ==> !settings_from_entries(
            e,
        ).enable_webtransport,
        lookup(e, SettingId(ENABLE_WEBTRANSPORT)) matches Some(v) ==> (settings_from_entries(
            e,
        ).enable_webtransport <==> v != 0),
        lookup(e, SettingId(ENABLE_CONNECT_PROTOCOL)) is None ==> !settings_from_entries(
            e,
        ).enable_extended_connect,
        lookup(e, SettingId(ENABLE_CONNECT_PROTOCOL)) matches Some(v) ==> (settings_from_entries(
            e,
        ).enable_extended_connect <==> v != 0),
        lookup(e, SettingId(H3_DATAGRAM)) is None ==> !settings_from_entries(e).enable_datagram,
        lookup(e, SettingId(H3_DATAGRAM)) matches Some(v) ==> (settings_from_entries(
            e,
        ).enable_datagram <==> v != 0),
        lookup(e, SettingId(WEBTRANSPORT_MAX_SESSIONS)) is None ==> settings_from_entries(
            e,
        ).max_webtransport_sessions == 0,
        lookup(e, SettingId(WEBTRANSPORT_MAX_SESSIONS)) matches Some(v) ==> settings_from_entries(
            e,
        ).max_webtransport_sessions == v,
        settings_from_entries(e).qpack_max_table_capacity == lookup(
            e,
            SettingId(QPACK_MAX_TABLE_CAPACITY),
        ),
        settings_from_entries(e).qpack_blocked_streams == lookup(
            e,
            SettingId(QPACK_MAX_BLOCKED_STREAMS),
        ),
{
}

/// Two frames that agree on the entry of one identifier give the same
/// value to the setting of that identifier, whatever else they hold.
pub proof fn law_read_setting_ignores_other_entries(
    e1: Seq<(SettingId, u64)>,
    e2: Seq<(SettingId, u64)>,
)
    ensures
        lookup(e1, SettingId(MAX_HEADER_LIST_SIZE)) == lookup(e2, SettingId(MAX_HEADER_LIST_SIZE))
            ==> settings_from_entries(e1).max_field_section_size == settings_from_entries(
            e2,
        ).max_field_section_size,
        lookup(e1, SettingId(ENABLE_WEBTRANSPORT)) == lookup(e2, SettingId(ENABLE_WEBTRANSPORT))
            ==> settings_from_entries(e1).enable_webtransport == settings_from_entries(
            e2,
        ).enable_webtransport,
        lookup(e1, SettingId(ENABLE_CONNECT_PROTOCOL)) == lookup(
            e2,
            SettingId(ENABLE_CONNECT_PROTOCOL),
        ) ==> settings_from_entries(e1).enable_extended_connect == settings_from_entries(
            e2,
        ).enable_extended_connect,
        lookup(e1, SettingId(H3_DATAGRAM)) == lookup(e2, SettingId(H3_DATAGRAM))
            ==> settings_from_entries(e1).enable_datagram == settings_from_entries(
            e2,
        ).enable_datagram,
        lookup(e1, SettingId(WEBTRANSPORT_MAX_SESSIONS)) == lookup(
            e2,
            SettingId(WEBTRANSPORT_MAX_SESSIONS),
        ) ==> settings_from_entries(e1).max_webtransport_sessions == settings_from_entries(
            e2,
        ).max_webtransport_sessions,
        lookup(e1, SettingId(QPACK_MAX_TABLE_CAPACITY)) == lookup(
            e2,
            SettingId(QPACK_MAX_TABLE_CAPACITY),
        ) ==> settings_from_entries(e1).qpack_max_table_capacity == settings_from_entries(
            e2,
        ).qpack_max_table_capacity,
        lookup(e1, SettingId(QPACK_MAX_BLOCKED_STREAMS)) == lookup(
            e2,
            SettingId(QPACK_MAX_BLOCKED_STREAMS),
        ) ==> settings_from_entries(e1).qpack_blocked_streams == settings_from_entries(
            e2,
        ).qpack_blocked_streams,
{
}

/// With `settings_order`, the entry of each identifier of the order reads
/// back as the value the configuration gives it, and none is sent for one
/// without a value.
proof fn lemma_ordered_lookup(c: Config, grease: SettingId, id: SettingId)
    requires
        c.settings_order is Some,
        c.settings_order->0@.contains(id),
        is_known_id(id),
        is_grease(grease),
        frame_entries(c, grease) is Ok,
    ensures
        lookup(frame_entries(c, grease)->Ok_0, id) == resolved_value(c, id),
{
    let p = planned_entries(c);
    lemma_insert_all(Seq::empty(), p);
    assert(Seq::<(SettingId, u64)>::empty() + p =~= p);
    lemma_ordered_entries(c, c.settings_order->0@, id);
    let f = frame_entries(c, grease)->Ok_0;
    let tail = if f.len() == p.len() {
        Seq::<(SettingId, u64)>::empty()
    } else {
        seq![(grease, 0u64)]
    };
    assert(f =~= p + tail);
    lemma_lookup_append(p, tail, id);
    lemma_lookup(p, id);
    lemma_lookup(tail, id);
    if has_id(tail, id) {
        assert(tail[0].0 == grease);
    }
    if lookup(p, id) is Some {
        let v = lookup(p, id)->0;
        let i = choose|i: int| 0 <= i < p.len() && p[i] == (id, v);
        assert(resolved_value(c, p[i].0) == Some(p[i].1));
    }
}

/// With `settings_order`, a peer that reads the SETTINGS frame gets, for
/// each known identifier of the order, exactly the configured setting:
/// the same number, the same flag, the same optional QPACK value.
pub proof fn law_ordered_read_back(c: Config, grease: SettingId)
    requires
        c.settings_order is Some,
        is_grease(grease),
        frame_entries(c, grease) is Ok,
    ensures
        c.settings_order->0@.contains(SettingId(MAX_HEADER_LIST_SIZE)) ==> settings_from_entries(
            frame_entries(c, grease)->Ok_0,
        ).max_field_section_size == c.settings.max_field_section_size,
        c.settings_order->0@.contains(SettingId(ENABLE_WEBTRANSPORT)) ==> settings_from_entries(
            frame_entries(c, grease)->Ok_0,
        ).enable_webtransport == c.settings.enable_webtransport,
        c.settings_order->0@.contains(SettingId(ENABLE_CONNECT_PROTOCOL)) ==> settings_from_entries(
            frame_entries(c, grease)->Ok_0,
        ).enable_extended_connect == c.settings.enable_extended_connect,
        c.settings_order->0@.contains(SettingId(H3_DATAGRAM)) ==> settings_from_entries(
            frame_entries(c, grease)->Ok_0,
        ).enable_datagram == c.settings.enable_datagram,
        c.settings_order->0@.contains(SettingId(WEBTRANSPORT_MAX_SESSIONS)) ==> settings_from_entries(
            frame_entries(c, grease)->Ok_0,
        ).max_webtransport_sessions == c.settings.max_webtransport_sessions,
        c.settings_order->0@.contains(SettingId(QPACK_MAX_TABLE_CAPACITY)) ==> settings_from_entries(
            frame_entries(c, grease)->Ok_0,
        ).qpack_max_table_capacity == c.settings.qpack_max_table_capacity,
        c.settings_order->0@.contains(SettingId(QPACK_MAX_BLOCKED_STREAMS)) ==> settings_from_entries(
            frame_entries(c, grease)->Ok_0,
        ).qpack_blocked_streams == c.settings.qpack_blocked_streams,
{
    let o = c.settings_order->0@;
    if o.contains(SettingId(MAX_HEADER_LIST_SIZE)) {
        lemma_ordered_lookup(c, grease, SettingId(MAX_HEADER_LIST_SIZE));
    }
    if o.contains(SettingId(ENABLE_WEBTRANSPORT)) {
        lemma_ordered_lookup(c, grease, SettingId(ENABLE_WEBTRANSPORT));
    }
    if o.contains(SettingId(ENABLE_CONNECT_PROTOCOL)) {
        lemma_ordered_lookup(c, grease, SettingId(ENABLE_CONNECT_PROTOCOL));
    }
    if o.contains(SettingId(H3_DATAGRAM)) {
        lemma_ordered_lookup(c, grease, SettingId(H3_DATAGRAM));
    }
    if o.contains(SettingId(WEBTRANSPORT_MAX_SESSIONS)) {
        lemma_ordered_lookup(c, grease, SettingId(WEBTRANSPORT_MAX_SESSIONS));
    }
    if o.contains(SettingId(QPACK_MAX_TABLE_CAPACITY)) {
        lemma_ordered_lookup(c, grease, SettingId(QPACK_MAX_TABLE_CAPACITY));
    }
    if o.contains(SettingId(QPACK_MAX_BLOCKED_STREAMS)) {
        lemma_ordered_lookup(c, grease, SettingId(QPACK_MAX_BLOCKED_STREAMS));
    }
}

} // verus!
