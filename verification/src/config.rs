//! Configuration lifecycle results and the configuration snapshot codec.
//!
//! A configuration arrives from the host as an opaque byte buffer.  The
//! framework decodes it into an immutable [`ExtensionConfig`] snapshot that
//! all instances created under it share.  The wire format is a single
//! version byte followed by the raw configuration value.

use vstd::prelude::*;

verus! {

/// Possible responses to the request to (re-)configure the extension.
#[derive(Copy, Clone, Eq, PartialEq, Hash, Debug, Structural)]
pub enum ConfigStatus {
    /// Extension has accepted the new configuration.
    Accepted,
    /// Extension has rejected the new configuration.
    Rejected,
}

impl ConfigStatus {
    /// True exactly on an accepted configuration.
    pub fn as_bool(&self) -> (r: bool)
        ensures
            r == (*self is Accepted),
    {
        match self {
            ConfigStatus::Accepted => true,
            ConfigStatus::Rejected => false,
        }
    }
}

/// Leading byte that every well-formed configuration buffer must carry.
pub const CONFIG_VERSION: u8 = 1;

/// An immutable configuration snapshot, decoded from the buffer the host
/// handed over.  Instances share a snapshot by reference and never mutate it.
#[derive(Debug, PartialEq, Eq)]
pub struct ExtensionConfig {
    /// The configuration value carried after the version byte.
    pub value: Vec<u8>,
}

impl View for ExtensionConfig {
    type V = Seq<u8>;

    open spec fn view(&self) -> Seq<u8> {
        self.value@
    }
}

impl Default for ExtensionConfig {
    /// The configuration in force before any buffer was accepted.
    fn default() -> (c: ExtensionConfig)
        ensures
            c@ == Seq::<u8>::empty(),
    {
        ExtensionConfig { value: Vec::new() }
    }
}

/// What decoding a raw buffer yields: the value after the version byte,
/// or nothing when the buffer is not well formed.
pub open spec fn decode_spec(b: Seq<u8>) -> Option<Seq<u8>> {
    if b.len() >= 1 && b[0] == CONFIG_VERSION {
        Some(b.subrange(1, b.len() as int))
    } else {
        None
    }
}

/// The buffer that carries a configuration value: the version byte
/// followed by the value.
pub open spec fn encode_spec(v: Seq<u8>) -> Seq<u8> {
    seq![CONFIG_VERSION] + v
}

impl ExtensionConfig {
    /// Decodes the buffer the host handed over; rejects a buffer that does
    /// not start with the expected version byte.
    pub fn decode(raw: &Vec<u8>) -> (r: Option<ExtensionConfig>)
        ensures
            match r {
                Some(c) => decode_spec(raw@) == Some(c@),
                None => decode_spec(raw@) is None,
            },
    {
        if raw.len() == 0 || raw[0] != CONFIG_VERSION {
            return None;
        }
        let mut value: Vec<u8> = Vec::new();
        let mut i: usize = 1;
        while i < raw.len()
            invariant
                1 <= i <= raw@.len(),
                value@ == raw@.subrange(1, i as int),
            decreases raw@.len() - i,
        {
            value.push(raw[i]);
            proof {
                assert(raw@.subrange(1, i + 1) =~= raw@.subrange(1, i as int).push(raw@[i as int]));
            }
            i = i + 1;
        }
        proof {
            assert(raw@.subrange(1, raw@.len() as int) =~= value@);
        }
        Some(ExtensionConfig { value })
    }

    /// Re-encodes this snapshot into the buffer form the host would hand
    /// over for it.
    pub fn encode(&self) -> (r: Vec<u8>)
        ensures
            r@ == encode_spec(self@),
    {
        let mut out: Vec<u8> = Vec::new();
        out.push(CONFIG_VERSION);
        let mut i: usize = 0;
        while i < self.value.len()
            invariant
                0 <= i <= self.value@.len(),
                out@ == seq![CONFIG_VERSION] + self.value@.subrange(0, i as int),
            decreases self.value@.len() - i,
        {
            out.push(self.value[i]);
            proof {
                assert(
                    seq![CONFIG_VERSION] + self.value@.subrange(0, i + 1)
                    =~= (seq![CONFIG_VERSION] + self.value@.subrange(0, i as int)).push(
                        self.value@[i as int],
                    )
                );
            }
            i = i + 1;
        }
        proof {
            assert(self.value@.subrange(0, self.value@.len() as int) =~= self.value@);
        }
        out
    }
}

/// Decoding a valid buffer and re-encoding the result yields a buffer that
/// decodes to the very same configuration value: a configuration survives a
/// round trip through the codec unchanged.
pub proof fn lemma_config_round_trip(b: Seq<u8>)
    requires
        decode_spec(b) is Some,
    ensures
        decode_spec(encode_spec(decode_spec(b)->Some_0)) == decode_spec(b),
{
    let v = decode_spec(b)->Some_0;
    let e = encode_spec(v);
    assert(e[0] == CONFIG_VERSION);
    assert(e.subrange(1, e.len() as int) =~= v);
}

} // verus!
