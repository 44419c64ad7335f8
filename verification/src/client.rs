//! HTTP/3 client builder
use vstd::prelude::*;

use crate::config::{Config, Settings, is_default_config};
use crate::frame::SettingId;
use vstd::std_specs::convert::IntoSpec;

verus! {

/// HTTP/3 client builder
///
/// Set the configuration for a new client.
pub struct Builder {
    config: Config,
}

impl View for Builder {
    type V = Config;

    closed spec fn view(&self) -> Config {
        self.config
    }
}

/// Start building a new HTTP/3 client
pub fn builder() -> (b: Builder)
    ensures
        is_default_config(b@),
{
    Builder::new()
}

impl Builder {
    pub(crate) fn new() -> (b: Self)
        ensures
            is_default_config(b@),
    {
        Builder { config: Config::default() }
    }

    /// The configuration built so far.
    pub fn config(&self) -> (c: &Config)
        ensures
            *c == self@,
    {
        &self.config
    }

    /// Set the maximum header size this client is willing to accept
    ///
    /// See the header size constraints section of RFC 9114 for details.
    pub fn max_field_section_size(&mut self, value: u64) -> (r: &mut Self)
        ensures
            (*r)@ == (Config {
                settings: (Settings { max_field_section_size: value, ..old(self)@.settings }),
                ..old(self)@
            }),
            *final(self) == *final(r),
    {
        self.config.settings.max_field_section_size = value;
        self
    }

    /// Whether the SETTINGS frame is sent at all (used by unit tests).
    pub fn send_settings(&mut self, value: bool) -> (r: &mut Self)
        ensures
            (*r)@ == (Config { send_settings: value, ..old(self)@ }),
            *final(self) == *final(r),
    {
        self.config.send_settings = value;
        self
    }

    /// Just like in HTTP/2, HTTP/3 also uses the concept of "grease"
    /// to prevent potential interoperability issues in the future.
    /// In HTTP/3, the concept of grease is used to ensure that the protocol can evolve
    /// and accommodate future changes without breaking existing implementations.
    pub fn send_grease(&mut self, enabled: bool) -> (r: &mut Self)
        ensures
            (*r)@ == (Config { send_grease: enabled, ..old(self)@ }),
            *final(self) == *final(r),
    {
        self.config.send_grease = enabled;
        self
    }

    /// Indicates that the client supports HTTP/3 datagrams
    ///
    /// See RFC 9297, section 2.1.1.
    pub fn enable_datagram(&mut self, enabled: bool) -> (r: &mut Self)
        ensures
            (*r)@ == (Config {
                settings: (Settings { enable_datagram: enabled, ..old(self)@.settings }),
                ..old(self)@
            }),
            *final(self) == *final(r),
    {
        self.config.settings.enable_datagram = enabled;
        self
    }

    /// Enables the extended CONNECT protocol required for various HTTP/3 extensions.
    pub fn enable_extended_connect(&mut self, value: bool) -> (r: &mut Self)
        ensures
            (*r)@ == (Config {
                settings: (Settings { enable_extended_connect: value, ..old(self)@.settings }),
                ..old(self)@
            }),
            *final(self) == *final(r),
    {
        self.config.settings.enable_extended_connect = value;
        self
    }

    /// Set the QPACK dynamic table capacity the encoder is permitted to use, in bytes.
    ///
    /// Sent as `SETTINGS_QPACK_MAX_TABLE_CAPACITY` (0x1). When this is not called,
    /// the setting is omitted and the protocol default of `0` applies. Passing `0`
    /// explicitly sends the setting with value `0`.
    pub fn qpack_max_table_capacity<T: Into<Option<u64>>>(&mut self, value: T) -> (r: &mut Self)
        ensures
            (*r)@ == (Config {
                settings: (Settings {
                    qpack_max_table_capacity: (*r)@.settings.qpack_max_table_capacity,
                    ..old(self)@.settings
                }),
                ..old(self)@
            }),
            T::obeys_into_spec() ==> (*r)@.settings.qpack_max_table_capacity == value.into_spec(),
            *final(self) == *final(r),
    {
        self.config.settings.qpack_max_table_capacity = value.into();
        self
    }

    /// Set the maximum number of blocked streams the QPACK decoder is willing to tolerate.
    ///
    /// Sent as `SETTINGS_QPACK_BLOCKED_STREAMS` (0x7). When this is not called,
    /// the setting is omitted and the protocol default of `0` applies. Passing `0`
    /// explicitly sends the setting with value `0`.
    pub fn qpack_blocked_streams<T: Into<Option<u64>>>(&mut self, value: T) -> (r: &mut Self)
        ensures
            (*r)@ == (Config {
                settings: (Settings {
                    qpack_blocked_streams: (*r)@.settings.qpack_blocked_streams,
                    ..old(self)@.settings
                }),
                ..old(self)@
            }),
            T::obeys_into_spec() ==> (*r)@.settings.qpack_blocked_streams == value.into_spec(),
            *final(self) == *final(r),
    {
        self.config.settings.qpack_blocked_streams = value.into();
        self
    }

    /// Set the exact order of settings in the SETTINGS frame.
    ///
    /// Each `SettingId` in the list will be encoded in that order. Values are
    /// resolved from known config settings (e.g. `max_field_section_size`) or
    /// from entries added via `extra_setting`.
    ///
    /// When `send_grease` is enabled (the default), a GREASE entry is always
    /// appended after all ordered settings; do not include it in this list.
    pub fn settings_order(&mut self, order: Vec<SettingId>) -> (r: &mut Self)
        ensures
            (*r)@ == (Config { settings_order: Some(order), ..old(self)@ }),
            *final(self) == *final(r),
    {
        self.config.settings_order = Some(order);
        self
    }

    /// Add an arbitrary (id, value) setting entry.
    ///
    /// Used for browser-specific unknown settings, controlled GREASE, or any
    /// setting ID not covered by the typed builder methods.
    pub fn extra_setting(&mut self, id: SettingId, value: u64) -> (r: &mut Self)
        ensures
            (*r)@.extra_settings@ == old(self)@.extra_settings@.push((id, value)),
            (*r)@ == (Config { extra_settings: (*r)@.extra_settings, ..old(self)@ }),
            *final(self) == *final(r),
    {
        self.config.extra_settings.push((id, value));
        self
    }
}

} // verus!
