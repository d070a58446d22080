use vstd::prelude::*;
use crate::error::ControlError;

verus! {

/// Largest flank length, in filter clock cycles.
pub const FLANK_MAX: u32 = 127;
/// Largest plateau length, in filter clock cycles.
pub const PLATEAU_MAX: u32 = 127;
/// Largest decay-time multiplier.
pub const DECAY_MAX: u32 = 65535;
/// Largest peak threshold.
pub const THRESHOLD_MAX: u32 = 16777215;
/// Largest dead time, in filter clock cycles.
pub const DEAD_TIME_MAX: u32 = 16777215;

/// Whether `b` is an ASCII decimal digit.
pub open spec fn is_digit(b: u8) -> bool {
    48 <= b <= 57
}

/// Whether `s` is a non-empty run of ASCII decimal digits.
pub open spec fn is_decimal(s: Seq<u8>) -> bool {
    s.len() > 0 && forall|i: int| 0 <= i < s.len() ==> is_digit(#[trigger] s[i])
}

/// The number that the digits of `s` spell, most significant first.
pub open spec fn decimal_value(s: Seq<u8>) -> nat
    decreases s.len(),
{
    if s.len() == 0 {
        0
    } else {
        decimal_value(s.drop_last()) * 10 + (s.last() - 48) as nat
    }
}

/// The value of a field text, where it is a decimal number that fits in `u32`.
pub open spec fn field_value(s: Seq<u8>) -> Option<u32> {
    if is_decimal(s) && decimal_value(s) <= u32::MAX {
        Some(decimal_value(s) as u32)
    } else {
        None
    }
}

proof fn lemma_value_grows(s: Seq<u8>, n: int)
    requires
        0 <= n <= s.len(),
        forall|i: int| 0 <= i < s.len() ==> is_digit(#[trigger] s[i]),
    ensures
        decimal_value(s.subrange(0, n)) <= decimal_value(s),
    decreases s.len() - n,
{
    if n < s.len() {
        lemma_value_grows(s, n + 1);
        let p = s.subrange(0, n + 1);
        assert(p.drop_last() =~= s.subrange(0, n));
    } else {
        assert(s.subrange(0, n) =~= s);
    }
}

/// Reads a field text as a decimal `u32`.
pub fn parse_field(s: &[u8]) -> (r: Option<u32>)
    ensures
        r == field_value(s@),
{
    if s.len() == 0 {
        return None;
    }
    let mut v: u64 = 0;
    let mut i: usize = 0;
    while i < s.len()
        invariant
            0 <= i <= s.len(),
            v == decimal_value(s@.subrange(0, i as int)),
            v <= u32::MAX,
            forall|j: int| 0 <= j < i ==> is_digit(#[trigger] s@[j]),
        decreases s.len() - i,
    {
        let b = s[i];
        if b < 48 || b > 57 {
            return None;
        }
        let next: u64 = v * 10 + (b - 48) as u64;
        proof {
            let p = s@.subrange(0, i + 1);
            assert(p.drop_last() =~= s@.subrange(0, i as int));
        }
        if next > u32::MAX as u64 {
            proof {
                if forall|j: int| 0 <= j < s@.len() ==> is_digit(#[trigger] s@[j]) {
                    lemma_value_grows(s@, i + 1);
                }
            }
            return None;
        }
        v = next;
        i = i + 1;
    }
    assert(s@.subrange(0, i as int) =~= s@);
    Some(v as u32)
}

/// The five settings of the pulse-shaping filter, as plain numbers.
#[derive(Clone, Copy, Debug, PartialEq, Eq, Structural)]
pub struct Settings {
    /// Length of the rising and falling flank, in filter clock cycles.
    pub flank: u32,
    /// Length of the plateau, in filter clock cycles.
    pub plateau: u32,
    /// Decay-time multiplier.
    pub decay: u32,
    /// Smallest peak height that counts as a signal.
    pub threshold: u32,
    /// Time in which neighbouring peaks are merged, in filter clock cycles.
    pub dead_time: u32,
}

/// Whether the settings lie within the device's ranges.
pub open spec fn in_range(s: Settings) -> bool {
    s.flank <= FLANK_MAX && s.plateau <= PLATEAU_MAX && s.decay <= DECAY_MAX
        && s.threshold <= THRESHOLD_MAX && s.dead_time <= DEAD_TIME_MAX
}

/// A validated configuration: settings that lie within the device's ranges.
/// It cannot be changed once built.
#[derive(Clone, Copy, Debug, PartialEq, Eq, Structural)]
pub struct Configuration {
    settings: Settings,
}

impl View for Configuration {
    type V = Settings;

    closed spec fn view(&self) -> Settings {
        self.settings
    }
}

/// The raw text of each field of a configuration request, as a transport
/// delivered it. A missing field is empty.
#[derive(Clone, Debug)]
pub struct RawRequest {
    pub flank: Vec<u8>,
    pub plateau: Vec<u8>,
    pub decay: Vec<u8>,
    pub threshold: Vec<u8>,
    pub dead_time: Vec<u8>,
}

/// The settings that the field texts describe, if every field is a decimal
/// number and together they lie within the device's ranges.
pub open spec fn request_settings(
    flank: Seq<u8>,
    plateau: Seq<u8>,
    decay: Seq<u8>,
    threshold: Seq<u8>,
    dead_time: Seq<u8>,
) -> Option<Settings> {
    match (
        field_value(flank),
        field_value(plateau),
        field_value(decay),
        field_value(threshold),
        field_value(dead_time),
    ) {
        (Some(k), Some(l), Some(m), Some(p), Some(d)) => {
            let s = Settings { flank: k, plateau: l, decay: m, threshold: p, dead_time: d };
            if in_range(s) {
                Some(s)
            } else {
                None
            }
        },
        _ => None,
    }
}

impl RawRequest {
    pub open spec fn settings_spec(&self) -> Option<Settings> {
        request_settings(self.flank@, self.plateau@, self.decay@, self.threshold@, self.dead_time@)
    }
}

impl Configuration {
    #[verifier::type_invariant]
    spec fn inv(&self) -> bool {
        in_range(self.settings)
    }

    /// Builds a configuration from settings, or rejects it whole where any
    /// setting is out of range.
    pub fn new(s: Settings) -> (r: Result<Configuration, ControlError>)
        ensures
            in_range(s) ==> r is Ok && r->Ok_0@ == s,
            !in_range(s) ==> r == Err::<Configuration, ControlError>(ControlError::InvalidParameters),
    {
        if s.flank <= FLANK_MAX && s.plateau <= PLATEAU_MAX && s.decay <= DECAY_MAX
            && s.threshold <= THRESHOLD_MAX && s.dead_time <= DEAD_TIME_MAX {
            Ok(Configuration { settings: s })
        } else {
            Err(ControlError::InvalidParameters)
        }
    }

    /// Parses and validates a raw request. A request with any field that is
    /// not a decimal number, or out of range, is rejected whole.
    pub fn from_raw(raw: &RawRequest) -> (r: Result<Configuration, ControlError>)
        ensures
            raw.settings_spec() is Some ==> r is Ok && r->Ok_0@ == raw.settings_spec().unwrap(),
            raw.settings_spec() is None ==> r == Err::<Configuration, ControlError>(
                ControlError::InvalidParameters,
            ),
    {
        let k = parse_field(raw.flank.as_slice());
        let l = parse_field(raw.plateau.as_slice());
        let m = parse_field(raw.decay.as_slice());
        let p = parse_field(raw.threshold.as_slice());
        let d = parse_field(raw.dead_time.as_slice());
        match (k, l, m, p, d) {
            (Some(k), Some(l), Some(m), Some(p), Some(d)) => Configuration::new(
                Settings { flank: k, plateau: l, decay: m, threshold: p, dead_time: d },
            ),
            _ => Err(ControlError::InvalidParameters),
        }
    }

    /// The settings held, which lie within the device's ranges.
    pub fn settings(&self) -> (r: Settings)
        ensures
            r == self@,
            in_range(r),
    {
        proof {
            use_type_invariant(self);
        }
        self.settings
    }
}

} // verus!
