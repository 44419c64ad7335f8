//! Setting identifiers and the entries of an HTTP/3 SETTINGS frame.
use vstd::prelude::*;

verus! {

/// Identifier of an HTTP/3 setting (RFC 9114, section 7.2.4).
#[derive(Debug, Clone, Copy, PartialEq, Eq, Structural)]
pub struct SettingId(pub u64);

/// Most entries one SETTINGS frame holds.
pub const SETTINGS_LEN: usize = 16;

/// Why an entry could not be added to a SETTINGS frame.
#[derive(Debug, Clone, Copy, PartialEq, Eq, Structural)]
pub enum SettingsError {
    /// The frame already holds `SETTINGS_LEN` entries.
    Exceeded,
    /// The frame already holds an entry with this identifier.
    Repeated(SettingId),
}

/// Code of `SETTINGS_QPACK_MAX_TABLE_CAPACITY` (RFC 9204).
pub const QPACK_MAX_TABLE_CAPACITY: u64 = 0x1;
/// Code of `SETTINGS_MAX_FIELD_SECTION_SIZE` (RFC 9114).
pub const MAX_HEADER_LIST_SIZE: u64 = 0x6;
/// Code of `SETTINGS_QPACK_BLOCKED_STREAMS` (RFC 9204).
pub const QPACK_MAX_BLOCKED_STREAMS: u64 = 0x7;
/// Code of `SETTINGS_ENABLE_CONNECT_PROTOCOL` (RFC 9220).
pub const ENABLE_CONNECT_PROTOCOL: u64 = 0x8;
/// Code of `SETTINGS_H3_DATAGRAM` (RFC 9297).
pub const H3_DATAGRAM: u64 = 0x33;
/// Code of `SETTINGS_ENABLE_WEBTRANSPORT` (draft-ietf-webtrans-http3).
pub const ENABLE_WEBTRANSPORT: u64 = 0x2b603742;
/// Code of `SETTINGS_WEBTRANSPORT_MAX_SESSIONS` (draft-ietf-webtrans-http3).
pub const WEBTRANSPORT_MAX_SESSIONS: u64 = 0x2b603743;

/// Whether `id` has the reserved form `0x1f * N + 0x21` of a GREASE
/// setting (RFC 9114, section 7.2.4.1) for some `N` that fits in a `u32`.
pub open spec fn is_grease(id: SettingId) -> bool {
    &&& id.0 >= 0x21
    &&& (id.0 - 0x21) % 0x1f == 0
    &&& (id.0 - 0x21) / 0x1f <= u32::MAX
}

/// Calls `fastrand::u32(..)`, which draws a random `u32` from the whole
/// range and does not panic on it. Nothing is claimed of the value beyond
/// its type.
#[verifier::external_body]
fn random_u32() -> u32 {
    fastrand::u32(..)
}

impl SettingId {
    /// The GREASE identifier `0x1f * n + 0x21`.
    pub fn grease_from(n: u32) -> (id: SettingId)
        ensures
            id.0 == 0x1f * n + 0x21,
            is_grease(id),
    {
        let id = SettingId(0x1f * (n as u64) + 0x21);
        assert((0x1f * n + 0x21 - 0x21) / 0x1f == n) by (nonlinear_arith);
        assert((0x1f * n + 0x21 - 0x21) % 0x1f == 0) by (nonlinear_arith);
        id
    }

    /// A GREASE identifier with a random `N` in `0x1f * N + 0x21`.
    pub fn grease() -> (id: SettingId)
        ensures
            is_grease(id),
    {
        SettingId::grease_from(random_u32())
    }
}

/// The value of the first entry of `s` with identifier `id`.
pub open spec fn lookup(s: Seq<(SettingId, u64)>, id: SettingId) -> Option<u64>
    decreases s.len(),
{
    if s.len() == 0 {
        None
    } else if s[0].0 == id {
        Some(s[0].1)
    } else {
        lookup(s.drop_first(), id)
    }
}

/// Whether some entry of `s` has identifier `id`.
pub open spec fn has_id(s: Seq<(SettingId, u64)>, id: SettingId) -> bool {
    exists|i: int| 0 <= i < s.len() && (#[trigger] s[i]).0 == id
}

/// No two entries of `s` share an identifier.
pub open spec fn distinct_ids(s: Seq<(SettingId, u64)>) -> bool {
    forall|i: int, j: int| 0 <= i < j < s.len() ==> (#[trigger] s[i]).0 != (#[trigger] s[j]).0
}

/// Adding the entry `(id, value)` to the entries `s`.
pub open spec fn spec_insert(s: Seq<(SettingId, u64)>, id: SettingId, value: u64) -> Result<
    Seq<(SettingId, u64)>,
    SettingsError,
> {
    if s.len() >= SETTINGS_LEN {
        Err(SettingsError::Exceeded)
    } else if has_id(s, id) {
        Err(SettingsError::Repeated(id))
    } else {
        Ok(s.push((id, value)))
    }
}

/// Adding each of `entries` to `s` in turn, stopping at the first error.
pub open spec fn insert_all(s: Seq<(SettingId, u64)>, entries: Seq<(SettingId, u64)>) -> Result<
    Seq<(SettingId, u64)>,
    SettingsError,
>
    decreases entries.len(),
{
    if entries.len() == 0 {
        Ok(s)
    } else {
        match spec_insert(s, entries[0].0, entries[0].1) {
            Ok(t) => insert_all(t, entries.drop_first()),
            Err(e) => Err(e),
        }
    }
}

/// `lookup` finds a value exactly when an entry has the identifier, and the
/// value it finds is that of such an entry.
pub proof fn lemma_lookup(s: Seq<(SettingId, u64)>, id: SettingId)
    ensures
        lookup(s, id) is Some <==> has_id(s, id),
        lookup(s, id) matches Some(v) ==> exists|i: int| 0 <= i < s.len() && s[i] == (id, v),
    decreases s.len(),
{
    if s.len() > 0 {
        lemma_lookup(s.drop_first(), id);
        if s[0].0 != id {
            if has_id(s, id) {
                let i = choose|i: int| 0 <= i < s.len() && (#[trigger] s[i]).0 == id;
                assert(s.drop_first()[i - 1].0 == id);
            }
            if has_id(s.drop_first(), id) {
                let i = choose|i: int| 0 <= i < s.len() - 1 && (#[trigger] s.drop_first()[i]).0 == id;
                assert(s[i + 1].0 == id);
            }
            if lookup(s, id) is Some {
                let v = lookup(s, id)->0;
                let i = choose|i: int| 0 <= i < s.len() - 1 && s.drop_first()[i] == (id, v);
                assert(s[i + 1] == (id, v));
            }
        } else {
            assert(s[0] == (id, s[0].1));
        }
    }
}

/// Looking up in `a + b` finds the entry of `a` when `a` has one, else
/// that of `b`.
pub proof fn lemma_lookup_append(a: Seq<(SettingId, u64)>, b: Seq<(SettingId, u64)>, id: SettingId)
    ensures
        lookup(a + b, id) == if has_id(a, id) {
            lookup(a, id)
        } else {
            lookup(b, id)
        },
    decreases a.len(),
{
    lemma_lookup(a, id);
    if a.len() == 0 {
        assert(a + b =~= b);
    } else {
        assert((a + b).drop_first() =~= a.drop_first() + b);
        lemma_lookup_append(a.drop_first(), b, id);
        lemma_lookup(a.drop_first(), id);
    }
}

/// Adding entries one by one to a valid frame succeeds exactly when the
/// result still has distinct identifiers and at most `SETTINGS_LEN`
/// entries, and the result is then the old entries followed by the new.
pub proof fn lemma_insert_all(s: Seq<(SettingId, u64)>, entries: Seq<(SettingId, u64)>)
    requires
        distinct_ids(s),
        s.len() <= SETTINGS_LEN,
    ensures
        insert_all(s, entries) is Ok <==> (distinct_ids(s + entries) && (s + entries).len()
            <= SETTINGS_LEN),
        insert_all(s, entries) is Ok ==> insert_all(s, entries) == Ok::<
            Seq<(SettingId, u64)>,
            SettingsError,
        >(s + entries),
    decreases entries.len(),
{
    if entries.len() == 0 {
        assert(s + entries =~= s);
    } else {
        let id = entries[0].0;
        let rest = entries.drop_first();
        assert(s + entries =~= s.push(entries[0]) + rest);
        if s.len() >= SETTINGS_LEN {
        } else if has_id(s, id) {
            let i = choose|i: int| 0 <= i < s.len() && (#[trigger] s[i]).0 == id;
            assert((s + entries)[i].0 == (s + entries)[s.len() as int].0);
        } else {
            let t = s.push(entries[0]);
            assert(distinct_ids(t)) by {
                assert forall|i: int, j: int| 0 <= i < j < t.len() implies (#[trigger] t[i]).0
                    != (#[trigger] t[j]).0 by {
                    if j == s.len() {
                        assert(t[i] == s[i]);
                    } else {
                        assert(t[i] == s[i] && t[j] == s[j]);
                    }
                }
            }
            lemma_insert_all(t, rest);
        }
    }
}

/// A value written into a frame is what a read of its identifier gives
/// back, and the other identifiers read as before.
pub proof fn law_insert_then_get(s: Seq<(SettingId, u64)>, id: SettingId, value: u64, other: SettingId)
    requires
        spec_insert(s, id, value) is Ok,
    ensures
        lookup(spec_insert(s, id, value)->Ok_0, id) == Some(value),
        other != id ==> lookup(spec_insert(s, id, value)->Ok_0, other) == lookup(s, other),
{
    let t = s.push((id, value));
    assert(t =~= s + seq![(id, value)]);
    lemma_lookup_append(s, seq![(id, value)], id);
    lemma_lookup_append(s, seq![(id, value)], other);
    lemma_lookup(s, id);
    lemma_lookup(s, other);
    assert(seq![(id, value)].drop_first() =~= Seq::<(SettingId, u64)>::empty());
    assert(lookup(Seq::<(SettingId, u64)>::empty(), other) is None);
    assert(seq![(id, value)][0].0 == id);
}

/// The entries of a SETTINGS frame, in the order they are sent.
pub struct Settings {
    entries: Vec<(SettingId, u64)>,
}

impl View for Settings {
    type V = Seq<(SettingId, u64)>;

    closed spec fn view(&self) -> Seq<(SettingId, u64)> {
        self.entries@
    }
}

impl Settings {
    #[verifier::type_invariant]
    closed spec fn well_formed(self) -> bool {
        &&& self.entries@.len() <= SETTINGS_LEN
        &&& distinct_ids(self.entries@)
    }

    /// A frame with no entries.
    pub fn new() -> (s: Settings)
        ensures
            s@ == Seq::<(SettingId, u64)>::empty(),
    {
        Settings { entries: Vec::new() }
    }

    /// The number of entries.
    pub fn len(&self) -> (n: usize)
        ensures
            n == self@.len(),
    {
        self.entries.len()
    }

    /// The entries, in the order they were added.
    pub fn entries(&self) -> (e: &[(SettingId, u64)])
        ensures
            e@ == self@,
    {
        self.entries.as_slice()
    }

    /// Adds `(id, value)` after the present entries. Fails with `Exceeded`
    /// when the frame is full and with `Repeated(id)` when `id` is present;
    /// the frame is then unchanged.
    pub fn insert(&mut self, id: SettingId, value: u64) -> (r: Result<(), SettingsError>)
        ensures
            match spec_insert(old(self)@, id, value) {
                Ok(s) => r is Ok && final(self)@ == s,
                Err(e) => r == Err::<(), SettingsError>(e) && final(self)@ == old(self)@,
            },
    {
        proof {
            use_type_invariant(&*self);
        }
        if self.entries.len() >= SETTINGS_LEN {
            return Err(SettingsError::Exceeded);
        }
        let n = self.entries.len();
        let mut i: usize = 0;
        while i < n
            invariant
                n == self.entries@.len(),
                self.entries@ == old(self).entries@,
                n < SETTINGS_LEN,
                0 <= i <= n,
                forall|j: int| 0 <= j < i ==> (#[trigger] self.entries@[j]).0 != id,
            decreases n - i,
        {
            if self.entries[i].0.0 == id.0 {
                assert(has_id(self.entries@, id)) by {
                    assert(self.entries@[i as int].0 == id);
                }
                return Err(SettingsError::Repeated(id));
            }
            i = i + 1;
        }
        assert(!has_id(self.entries@, id));
        let mut entries: Vec<(SettingId, u64)> = Vec::new();
        std::mem::swap(&mut entries, &mut self.entries);
        entries.push((id, value));
        self.entries = entries;
        Ok(())
    }

    /// Adds each of `entries` in turn, stopping at the first error.
    pub fn insert_each(&mut self, entries: &[(SettingId, u64)]) -> (r: Result<(), SettingsError>)
        ensures
            match insert_all(old(self)@, entries@) {
                Ok(s) => r is Ok && final(self)@ == s,
                Err(e) => r == Err::<(), SettingsError>(e) && exists|k: int|
                    0 <= k < entries@.len() && final(self)@ == old(self)@ + entries@.take(k),
            },
    {
        let n = entries.len();
        let mut i: usize = 0;
        assert(entries@.skip(0) =~= entries@);
        assert(old(self)@ + entries@.take(0) =~= old(self)@);
        while i < n
            invariant
                n == entries@.len(),
                0 <= i <= n,
                insert_all(old(self)@, entries@) == insert_all(self@, entries@.skip(i as int)),
                self@ == old(self)@ + entries@.take(i as int),
            decreases n - i,
        {
            assert(entries@.skip(i as int).drop_first() =~= entries@.skip(i + 1));
            let (id, value) = entries[i];
            match self.insert(id, value) {
                Ok(()) => {},
                Err(e) => {
                    return Err(e);
                },
            }
            assert(old(self)@ + entries@.take(i + 1) =~= (old(self)@ + entries@.take(i as int)).push(
                entries@[i as int],
            ));
            i = i + 1;
        }
        Ok(())
    }

    /// The value of the entry with identifier `id`, if there is one.
    pub fn get(&self, id: SettingId) -> (r: Option<u64>)
        ensures
            r == lookup(self@, id),
    {
        let n = self.entries.len();
        let mut i: usize = 0;
        assert(self.entries@.skip(0) =~= self.entries@);
        while i < n
            invariant
                n == self.entries@.len(),
                0 <= i <= n,
                lookup(self.entries@, id) == lookup(self.entries@.skip(i as int), id),
            decreases n - i,
        {
            assert(self.entries@.skip(i as int).drop_first() =~= self.entries@.skip(i + 1));
            if self.entries[i].0.0 == id.0 {
                return Some(self.entries[i].1);
            }
            i = i + 1;
        }
        None
    }
}

} // verus!
