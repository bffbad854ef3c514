//! Parameters: their flags, their descriptions, and the text buffers they are displayed into.

use crate::audio_ports::CLAP_NAME_SIZE;
use crate::common::{ClapId, Cookie, CLAP_INVALID_ID};
use crate::flags::{FlagKind, Flags};
use crate::utils::{
    bytes_eq, data_from_array_buf, first_nul, is_nul_free, kept_len,
    lemma_written_buf_stored_data, stored_data, write_to_array_buf, written_buf,
};
use vstd::prelude::*;
use vstd::string::StringSliceAdditionalSpecFns;

verus! {

/// The size of the module path buffer of a parameter record.
pub const CLAP_PATH_SIZE: usize = 1024usize;

/// The family of parameter rescan flags.
#[derive(Debug)]
pub struct ParamRescanKind;

impl FlagKind for ParamRescanKind {
    open spec fn spec_all_bits() -> u32 {
        0xfu32
    }

    fn all_bits() -> (bits: u32) {
        0xfu32
    }
}

/// What parameter information changed and must be scanned again by the host.
pub type ParamRescanFlags = Flags<ParamRescanKind>;

/// The parameter values changed.
pub const CLAP_PARAM_RESCAN_VALUES: u32 = 1u32;
/// The conversion of values to text changed.
pub const CLAP_PARAM_RESCAN_TEXT: u32 = 2u32;
/// The information of parameters changed.
pub const CLAP_PARAM_RESCAN_INFO: u32 = 4u32;
/// Everything the host knows about the parameters is invalid.
pub const CLAP_PARAM_RESCAN_ALL: u32 = 8u32;

/// The family of parameter clear flags.
#[derive(Debug)]
pub struct ParamClearKind;

impl FlagKind for ParamClearKind {
    open spec fn spec_all_bits() -> u32 {
        7u32
    }

    fn all_bits() -> (bits: u32) {
        7u32
    }
}

/// Which references to a parameter the host must clear.
pub type ParamClearFlags = Flags<ParamClearKind>;

/// Clears every reference to a parameter.
pub const CLAP_PARAM_CLEAR_ALL: u32 = 1u32;
/// Clears the automation of a parameter.
pub const CLAP_PARAM_CLEAR_AUTOMATIONS: u32 = 2u32;
/// Clears the modulation of a parameter.
pub const CLAP_PARAM_CLEAR_MODULATIONS: u32 = 4u32;

/// The family of parameter information flags.
#[derive(Debug)]
pub struct ParamInfoKind;

impl FlagKind for ParamInfoKind {
    open spec fn spec_all_bits() -> u32 {
        0x1ffffu32
    }

    fn all_bits() -> (bits: u32) {
        0x1ffffu32
    }
}

/// Flags that describe a parameter.
pub type ParamInfoFlags = Flags<ParamInfoKind>;

/// The parameter is stepped.
pub const CLAP_PARAM_IS_STEPPED: u32 = 0x1u32;
/// The parameter is periodic.
pub const CLAP_PARAM_IS_PERIODIC: u32 = 0x2u32;
/// The parameter is hidden.
pub const CLAP_PARAM_IS_HIDDEN: u32 = 0x4u32;
/// The parameter cannot be changed by the host.
pub const CLAP_PARAM_IS_READONLY: u32 = 0x8u32;
/// The parameter is the bypass parameter.
pub const CLAP_PARAM_IS_BYPASS: u32 = 0x10u32;
/// The parameter can be automated.
pub const CLAP_PARAM_IS_AUTOMATABLE: u32 = 0x20u32;
/// The parameter can be automated per note identifier.
pub const CLAP_PARAM_IS_AUTOMATABLE_PER_NOTE_ID: u32 = 0x40u32;
/// The parameter can be automated per key.
pub const CLAP_PARAM_IS_AUTOMATABLE_PER_KEY: u32 = 0x80u32;
/// The parameter can be automated per channel.
pub const CLAP_PARAM_IS_AUTOMATABLE_PER_CHANNEL: u32 = 0x100u32;
/// The parameter can be automated per port.
pub const CLAP_PARAM_IS_AUTOMATABLE_PER_PORT: u32 = 0x200u32;
/// The parameter can be modulated.
pub const CLAP_PARAM_IS_MODULATABLE: u32 = 0x400u32;
/// The parameter can be modulated per note identifier.
pub const CLAP_PARAM_IS_MODULATABLE_PER_NOTE_ID: u32 = 0x800u32;
/// The parameter can be modulated per key.
pub const CLAP_PARAM_IS_MODULATABLE_PER_KEY: u32 = 0x1000u32;
/// The parameter can be modulated per channel.
pub const CLAP_PARAM_IS_MODULATABLE_PER_CHANNEL: u32 = 0x2000u32;
/// The parameter can be modulated per port.
pub const CLAP_PARAM_IS_MODULATABLE_PER_PORT: u32 = 0x4000u32;
/// Any change of the parameter needs processing.
pub const CLAP_PARAM_REQUIRES_PROCESS: u32 = 0x8000u32;
/// The parameter is an enumeration of discrete values.
pub const CLAP_PARAM_IS_ENUM: u32 = 0x10000u32;

/// The information flags that, when changed, need an information rescan: periodic and hidden.
pub const FLAGS_REQUIRING_INFO_RESCAN_BITS: u32 = 0x6u32;

/// The information flags that, when changed, need a full rescan: the automation and modulation
/// flags, read-only, bypass and stepped.
pub const FLAGS_REQUIRING_FULL_RESCAN_BITS: u32 = 0x7ff9u32;

/// Every flag constant of the parameter families is a known bit of its family, and the two rescan
/// masks are the unions the documentation gives.
proof fn lemma_param_bits()
    by (bit_vector)
    ensures
        CLAP_PARAM_RESCAN_VALUES & !0xfu32 == 0,
        CLAP_PARAM_RESCAN_TEXT & !0xfu32 == 0,
        CLAP_PARAM_RESCAN_INFO & !0xfu32 == 0,
        CLAP_PARAM_RESCAN_ALL & !0xfu32 == 0,
        CLAP_PARAM_CLEAR_ALL & !7u32 == 0,
        CLAP_PARAM_CLEAR_AUTOMATIONS & !7u32 == 0,
        CLAP_PARAM_CLEAR_MODULATIONS & !7u32 == 0,
        FLAGS_REQUIRING_INFO_RESCAN_BITS & !0x1ffffu32 == 0,
        FLAGS_REQUIRING_FULL_RESCAN_BITS & !0x1ffffu32 == 0,
        FLAGS_REQUIRING_INFO_RESCAN_BITS == CLAP_PARAM_IS_PERIODIC | CLAP_PARAM_IS_HIDDEN,
        FLAGS_REQUIRING_FULL_RESCAN_BITS == CLAP_PARAM_IS_AUTOMATABLE
            | CLAP_PARAM_IS_AUTOMATABLE_PER_NOTE_ID | CLAP_PARAM_IS_AUTOMATABLE_PER_KEY
            | CLAP_PARAM_IS_AUTOMATABLE_PER_CHANNEL | CLAP_PARAM_IS_AUTOMATABLE_PER_PORT
            | CLAP_PARAM_IS_MODULATABLE | CLAP_PARAM_IS_MODULATABLE_PER_NOTE_ID
            | CLAP_PARAM_IS_MODULATABLE_PER_KEY | CLAP_PARAM_IS_MODULATABLE_PER_CHANNEL
            | CLAP_PARAM_IS_MODULATABLE_PER_PORT | CLAP_PARAM_IS_READONLY | CLAP_PARAM_IS_BYPASS
            | CLAP_PARAM_IS_STEPPED,
{
}

impl Flags<ParamRescanKind> {
    /// The parameter values changed.
    pub fn values() -> (f: Self)
        ensures
            f.spec_bits() == CLAP_PARAM_RESCAN_VALUES,
            f.wf(),
    {
        proof {
            lemma_param_bits();
        }
        Self::from_known_bits(CLAP_PARAM_RESCAN_VALUES)
    }

    /// The conversion of values to text changed.
    pub fn text() -> (f: Self)
        ensures
            f.spec_bits() == CLAP_PARAM_RESCAN_TEXT,
            f.wf(),
    {
        proof {
            lemma_param_bits();
        }
        Self::from_known_bits(CLAP_PARAM_RESCAN_TEXT)
    }

    /// The information of parameters changed.
    pub fn info() -> (f: Self)
        ensures
            f.spec_bits() == CLAP_PARAM_RESCAN_INFO,
            f.wf(),
    {
        proof {
            lemma_param_bits();
        }
        Self::from_known_bits(CLAP_PARAM_RESCAN_INFO)
    }

    /// Everything the host knows about the parameters is invalid.
    pub fn all() -> (f: Self)
        ensures
            f.spec_bits() == CLAP_PARAM_RESCAN_ALL,
            f.wf(),
    {
        proof {
            lemma_param_bits();
        }
        Self::from_known_bits(CLAP_PARAM_RESCAN_ALL)
    }

    /// Returns `true` if the set flags mean that the plugin instance must be restarted before
    /// its parameters can be scanned again: that is, if the `all` flag is set.
    pub fn requires_restart(&self) -> (res: bool)
        ensures
            res == (self.spec_bits() & CLAP_PARAM_RESCAN_ALL == CLAP_PARAM_RESCAN_ALL),
    {
        self.contains(Self::all())
    }
}

impl Flags<ParamClearKind> {
    /// Clears every reference to a parameter.
    pub fn all() -> (f: Self)
        ensures
            f.spec_bits() == CLAP_PARAM_CLEAR_ALL,
            f.wf(),
    {
        proof {
            lemma_param_bits();
        }
        Self::from_known_bits(CLAP_PARAM_CLEAR_ALL)
    }

    /// Clears the automation of a parameter.
    pub fn automations() -> (f: Self)
        ensures
            f.spec_bits() == CLAP_PARAM_CLEAR_AUTOMATIONS,
            f.wf(),
    {
        proof {
            lemma_param_bits();
        }
        Self::from_known_bits(CLAP_PARAM_CLEAR_AUTOMATIONS)
    }

    /// Clears the modulation of a parameter.
    pub fn modulations() -> (f: Self)
        ensures
            f.spec_bits() == CLAP_PARAM_CLEAR_MODULATIONS,
            f.wf(),
    {
        proof {
            lemma_param_bits();
        }
        Self::from_known_bits(CLAP_PARAM_CLEAR_MODULATIONS)
    }
}

impl Flags<ParamInfoKind> {
    /// The flags that, when changed, need an information rescan: periodic and hidden.
    pub fn flags_requiring_info_rescan() -> (f: Self)
        ensures
            f.spec_bits() == FLAGS_REQUIRING_INFO_RESCAN_BITS,
            f.wf(),
    {
        proof {
            lemma_param_bits();
        }
        Self::from_known_bits(FLAGS_REQUIRING_INFO_RESCAN_BITS)
    }

    /// The flags that, when changed, need a full rescan: the automation and modulation flags,
    /// read-only, bypass and stepped.
    pub fn flags_requiring_full_rescan() -> (f: Self)
        ensures
            f.spec_bits() == FLAGS_REQUIRING_FULL_RESCAN_BITS,
            f.wf(),
    {
        proof {
            lemma_param_bits();
        }
        Self::from_known_bits(FLAGS_REQUIRING_FULL_RESCAN_BITS)
    }
}

/// Whether the IEEE-754 double whose bits are given is not a number.
pub open spec fn f64_bits_is_nan(bits: u64) -> bool {
    bits & 0x7ff0_0000_0000_0000u64 == 0x7ff0_0000_0000_0000u64 && bits & 0x000f_ffff_ffff_ffffu64
        != 0
}

/// Whether the IEEE-754 double whose bits are given is a zero, of either sign.
pub open spec fn f64_bits_is_zero(bits: u64) -> bool {
    bits & 0x7fff_ffff_ffff_ffffu64 == 0
}

/// Whether the IEEE-754 doubles whose bits are given compare equal: neither is not-a-number, and
/// they are the same value (both zeros of any sign count as the same value).
pub open spec fn f64_bits_eq(a: u64, b: u64) -> bool {
    !f64_bits_is_nan(a) && !f64_bits_is_nan(b) && (a == b || (f64_bits_is_zero(a)
        && f64_bits_is_zero(b)))
}

/// Returns whether the IEEE-754 doubles whose bits are given compare equal, as `==` on `f64` does.
pub fn f64_bits_equal(a: u64, b: u64) -> (eq: bool)
    ensures
        eq == f64_bits_eq(a, b),
{
    let a_nan = a & 0x7ff0_0000_0000_0000u64 == 0x7ff0_0000_0000_0000u64 && a
        & 0x000f_ffff_ffff_ffffu64 != 0;
    let b_nan = b & 0x7ff0_0000_0000_0000u64 == 0x7ff0_0000_0000_0000u64 && b
        & 0x000f_ffff_ffff_ffffu64 != 0;
    let a_zero = a & 0x7fff_ffff_ffff_ffffu64 == 0;
    let b_zero = b & 0x7fff_ffff_ffff_ffffu64 == 0;
    !a_nan && !b_nan && (a == b || (a_zero && b_zero))
}

/// The C-compatible record of a parameter's description. The cookie is an address and the values
/// are the bits of IEEE-754 doubles.
#[allow(non_camel_case_types)]
#[derive(Copy, Clone, Debug)]
pub struct clap_param_info {
    pub id: u32,
    pub flags: u32,
    pub cookie: usize,
    pub name: [u8; CLAP_NAME_SIZE],
    pub module: [u8; CLAP_PATH_SIZE],
    pub min_value: u64,
    pub max_value: u64,
    pub default_value: u64,
}

/// The abstract value of a raw parameter description.
pub struct RawParamInfoView {
    pub id: u32,
    pub flags: u32,
    pub cookie: usize,
    pub name: Seq<u8>,
    pub module: Seq<u8>,
    pub min_value: u64,
    pub max_value: u64,
    pub default_value: u64,
}

impl View for clap_param_info {
    type V = RawParamInfoView;

    open spec fn view(&self) -> RawParamInfoView {
        RawParamInfoView {
            id: self.id,
            flags: self.flags,
            cookie: self.cookie,
            name: self.name@,
            module: self.module@,
            min_value: self.min_value,
            max_value: self.max_value,
            default_value: self.default_value,
        }
    }
}

/// The description of a parameter. The plain values are the bits of IEEE-754 doubles, as
/// `f64::to_bits` gives them.
#[derive(Clone, Debug)]
pub struct ParamInfo {
    /// The stable identifier of the parameter.
    pub id: ClapId,
    /// Flags that describe the parameter.
    pub flags: ParamInfoFlags,
    /// An opaque value the plugin uses to find the parameter again quickly.
    pub cookie: Cookie,
    /// The name shown to the user.
    pub name: Vec<u8>,
    /// The module path of the parameter, with `/` as a separator.
    pub module: Vec<u8>,
    /// The bits of the minimum plain value.
    pub min_value: u64,
    /// The bits of the maximum plain value.
    pub max_value: u64,
    /// The bits of the default plain value.
    pub default_value: u64,
}

/// The abstract value of a parameter description.
pub struct ParamInfoView {
    pub id: ClapId,
    pub flags: u32,
    pub cookie: usize,
    pub name: Seq<u8>,
    pub module: Seq<u8>,
    pub min_value: u64,
    pub max_value: u64,
    pub default_value: u64,
}

impl View for ParamInfo {
    type V = ParamInfoView;

    open spec fn view(&self) -> ParamInfoView {
        ParamInfoView {
            id: self.id,
            flags: self.flags.spec_bits(),
            cookie: self.cookie.spec_address(),
            name: self.name@,
            module: self.module@,
            min_value: self.min_value,
            max_value: self.max_value,
            default_value: self.default_value,
        }
    }
}

/// The abstract value of an optional parameter description.
pub open spec fn opt_param_info_view(i: Option<ParamInfo>) -> Option<ParamInfoView> {
    match i {
        Some(i) => Some(i@),
        None => None,
    }
}

/// The description a raw record stands for, if its identifier is valid.
pub open spec fn spec_param_info_from_raw(raw: RawParamInfoView) -> Option<ParamInfoView> {
    if raw.id == CLAP_INVALID_ID {
        None
    } else {
        Some(
            ParamInfoView {
                id: ClapId::new_spec(raw.id),
                flags: raw.flags & 0x1ffffu32,
                cookie: raw.cookie,
                name: stored_data(raw.name),
                module: stored_data(raw.module),
                min_value: raw.min_value,
                max_value: raw.max_value,
                default_value: raw.default_value,
            },
        )
    }
}

/// The raw record that writing a description into `old` leaves.
pub open spec fn spec_param_info_written(old: RawParamInfoView, data: ParamInfoView) -> RawParamInfoView {
    RawParamInfoView {
        id: data.id.value(),
        flags: data.flags,
        cookie: data.cookie,
        name: written_buf(old.name, data.name),
        module: written_buf(old.module, data.module),
        min_value: data.min_value,
        max_value: data.max_value,
        default_value: data.default_value,
    }
}

/// The rescan flags that describe how two descriptions differ: `info` if the names, the module
/// paths, or the flags that need an information rescan differ; `all` if the minimum or maximum
/// values compare unequal, the cookies differ, or the flags that need a full rescan differ.
pub open spec fn spec_diff_for_rescan(a: ParamInfoView, b: ParamInfoView) -> u32 {
    let info = a.name != b.name || a.module != b.module || (a.flags
        & FLAGS_REQUIRING_INFO_RESCAN_BITS) != (b.flags & FLAGS_REQUIRING_INFO_RESCAN_BITS);
    let all = !f64_bits_eq(a.min_value, b.min_value) || !f64_bits_eq(a.max_value, b.max_value)
        || a.cookie != b.cookie || (a.flags & FLAGS_REQUIRING_FULL_RESCAN_BITS) != (b.flags
        & FLAGS_REQUIRING_FULL_RESCAN_BITS);
    (if info {
        CLAP_PARAM_RESCAN_INFO
    } else {
        0u32
    }) | (if all {
        CLAP_PARAM_RESCAN_ALL
    } else {
        0u32
    })
}

impl ParamInfo {
    /// Returns the description a raw record stands for, or `None` if its identifier is invalid.
    /// Unknown flags are dropped, and the name and module path are read up to their nul
    /// terminators.
    pub fn from_raw(raw: &clap_param_info) -> (info: Option<ParamInfo>)
        ensures
            opt_param_info_view(info) == spec_param_info_from_raw(raw@),
            info is Some <==> raw.id != CLAP_INVALID_ID,
            info matches Some(i) ==> {
                &&& i.id.value() == raw.id
                &&& i.flags.spec_bits() == raw.flags & 0x1ffffu32
                &&& i.cookie.spec_address() == raw.cookie
                &&& i.name@ == stored_data(raw.name@)
                &&& i.module@ == stored_data(raw.module@)
                &&& i.min_value == raw.min_value
                &&& i.max_value == raw.max_value
                &&& i.default_value == raw.default_value
            },
    {
        let id = ClapId::from_raw(raw.id)?;
        Some(
            ParamInfo {
                id,
                flags: ParamInfoFlags::from_bits_truncate(raw.flags),
                cookie: Cookie::from_raw(raw.cookie),
                name: data_from_array_buf(&raw.name),
                module: data_from_array_buf(&raw.module),
                min_value: raw.min_value,
                max_value: raw.max_value,
                default_value: raw.default_value,
            },
        )
    }

    /// Computes the difference between this and another description, as the rescan flags the
    /// plugin must report to the host.
    pub fn diff_for_rescan(&self, other: &ParamInfo) -> (flags: ParamRescanFlags)
        ensures
            flags.spec_bits() == spec_diff_for_rescan(self@, other@),
            flags.wf(),
            flags.spec_bits() & CLAP_PARAM_RESCAN_INFO != 0 <==> (self.name@ != other.name@
                || self.module@ != other.module@ || (self.flags.spec_bits() & (CLAP_PARAM_IS_PERIODIC
                | CLAP_PARAM_IS_HIDDEN)) != (other.flags.spec_bits() & (CLAP_PARAM_IS_PERIODIC
                | CLAP_PARAM_IS_HIDDEN))),
            flags.spec_bits() & CLAP_PARAM_RESCAN_ALL != 0 <==> (!f64_bits_eq(
                self.min_value,
                other.min_value,
            ) || !f64_bits_eq(self.max_value, other.max_value) || self.cookie.spec_address()
                != other.cookie.spec_address()
                || (self.flags.spec_bits() & 0x7ff9u32) != (other.flags.spec_bits() & 0x7ff9u32)),
            flags.spec_bits() & !(CLAP_PARAM_RESCAN_INFO | CLAP_PARAM_RESCAN_ALL) == 0,
    {
        let info_mask = ParamInfoFlags::flags_requiring_info_rescan();
        let full_mask = ParamInfoFlags::flags_requiring_full_rescan();
        let mut flags = ParamRescanFlags::empty();

        let needs_info = !bytes_eq(self.name.as_slice(), other.name.as_slice()) || !bytes_eq(
            self.module.as_slice(),
            other.module.as_slice(),
        ) || self.flags.intersection(info_mask).bits() != other.flags.intersection(
            info_mask,
        ).bits();
        if needs_info {
            flags = flags.union(ParamRescanFlags::info());
        }
        let needs_all = !f64_bits_equal(self.min_value, other.min_value) || !f64_bits_equal(
            self.max_value,
            other.max_value,
        ) || self.cookie.as_raw() != other.cookie.as_raw() || self.flags.intersection(
            full_mask,
        ).bits() != other.flags.intersection(full_mask).bits();
        if needs_all {
            flags = flags.union(ParamRescanFlags::all());
        }
        proof {
            let i = CLAP_PARAM_RESCAN_INFO;
            let a = CLAP_PARAM_RESCAN_ALL;
            assert(0u32 | i == (i | 0u32) && 0u32 | a == (0u32 | a) && (0u32 | i) | a == (i | a)
                && (0u32 | 0u32) == 0u32) by (bit_vector);
            lemma_param_bits();
            lemma_rescan_flag_bits(false, false);
            lemma_rescan_flag_bits(false, true);
            lemma_rescan_flag_bits(true, false);
            lemma_rescan_flag_bits(true, true);
        }
        flags
    }
}

/// The rescan flags made of an information flag and a full flag hold each exactly when it was
/// asked for, and nothing else.
proof fn lemma_rescan_flag_bits(info: bool, all: bool)
    ensures
        ({
            let b = (if info {
                CLAP_PARAM_RESCAN_INFO
            } else {
                0u32
            }) | (if all {
                CLAP_PARAM_RESCAN_ALL
            } else {
                0u32
            });
            &&& (b & CLAP_PARAM_RESCAN_INFO != 0 <==> info)
            &&& (b & CLAP_PARAM_RESCAN_ALL != 0 <==> all)
            &&& b & !(CLAP_PARAM_RESCAN_INFO | CLAP_PARAM_RESCAN_ALL) == 0
        }),
{
    assert((4u32 | 0u32) & 4u32 != 0 && (4u32 | 0u32) & 8u32 == 0 && (4u32 | 0u32) & !(4u32
        | 8u32) == 0) by (bit_vector);
    assert((0u32 | 8u32) & 4u32 == 0 && (0u32 | 8u32) & 8u32 != 0 && (0u32 | 8u32) & !(4u32
        | 8u32) == 0) by (bit_vector);
    assert((4u32 | 8u32) & 4u32 != 0 && (4u32 | 8u32) & 8u32 != 0 && (4u32 | 8u32) & !(4u32
        | 8u32) == 0) by (bit_vector);
    assert((0u32 | 0u32) & 4u32 == 0 && (0u32 | 0u32) & 8u32 == 0 && (0u32 | 0u32) & !(4u32
        | 8u32) == 0) by (bit_vector);
}

/// Writes the description of a parameter into a raw record that a host provided.
pub struct ParamInfoWriter {
    buf: clap_param_info,
    is_set: bool,
}

impl ParamInfoWriter {
    /// The record as it currently stands.
    pub closed spec fn spec_buf(&self) -> RawParamInfoView {
        self.buf@
    }

    /// Whether a description was written.
    pub closed spec fn spec_is_set(&self) -> bool {
        self.is_set
    }

    /// Creates a writer over the given record; nothing is written yet.
    pub fn new(raw: clap_param_info) -> (w: ParamInfoWriter)
        ensures
            w.spec_buf() == raw@,
            !w.spec_is_set(),
    {
        ParamInfoWriter { buf: raw, is_set: false }
    }

    /// Writes the given description into the record.
    pub fn set(&mut self, info: &ParamInfo)
        ensures
            final(self).spec_buf() == spec_param_info_written(old(self).spec_buf(), info@),
            final(self).spec_is_set(),
            final(self).spec_buf().id == info.id.value(),
            final(self).spec_buf().flags == info.flags.spec_bits(),
            final(self).spec_buf().cookie == info.cookie.spec_address(),
            final(self).spec_buf().min_value == info.min_value,
            final(self).spec_buf().max_value == info.max_value,
            final(self).spec_buf().default_value == info.default_value,
            final(self).spec_buf().name == written_buf(old(self).spec_buf().name, info.name@),
            final(self).spec_buf().module == written_buf(old(self).spec_buf().module, info.module@),
    {
        self.buf.id = info.id.get();
        self.buf.flags = info.flags.bits();
        self.buf.min_value = info.min_value;
        self.buf.max_value = info.max_value;
        self.buf.default_value = info.default_value;
        self.buf.cookie = info.cookie.as_raw();
        write_to_array_buf(&mut self.buf.name, info.name.as_slice());
        write_to_array_buf(&mut self.buf.module, info.module.as_slice());
        self.is_set = true;
    }

    /// Returns the record and whether a description was written into it.
    pub fn finish(self) -> (res: (clap_param_info, bool))
        ensures
            res.0@ == self.spec_buf(),
            res.1 == self.spec_is_set(),
    {
        (self.buf, self.is_set)
    }
}

/// Whether a parameter description survives being written into a raw record and read back: its
/// identifier is valid, its flags are known ones, and its name and module path are nul-free and
/// fit their buffers.
pub open spec fn param_info_fits_raw(data: ParamInfoView) -> bool {
    &&& data.id.wf()
    &&& data.flags & !0x1ffffu32 == 0
    &&& is_nul_free(data.name)
    &&& data.name.len() < CLAP_NAME_SIZE
    &&& is_nul_free(data.module)
    &&& data.module.len() < CLAP_PATH_SIZE
}

/// Reading back a raw record that a parameter description was written into gives the same
/// description.
pub proof fn lemma_param_info_roundtrip(old: RawParamInfoView, data: ParamInfoView)
    requires
        old.name.len() == CLAP_NAME_SIZE,
        old.module.len() == CLAP_PATH_SIZE,
        param_info_fits_raw(data),
    ensures
        spec_param_info_from_raw(spec_param_info_written(old, data)) == Some(data),
{
    lemma_written_buf_stored_data(old.name, data.name);
    assert(data.name.take(kept_len(old.name.len(), data.name)) =~= data.name);
    lemma_written_buf_stored_data(old.module, data.module);
    assert(data.module.take(kept_len(old.module.len(), data.module)) =~= data.module);
    ClapId::lemma_new_spec_value(data.id);
    let f = data.flags;
    assert(f & !0x1ffffu32 == 0 ==> f & 0x1ffffu32 == f) by (bit_vector);
}

/// A description compared with itself needs no rescan, unless its minimum or maximum value is not
/// a number (which never compares equal to itself).
pub proof fn lemma_diff_for_rescan_reflexive(a: ParamInfoView)
    requires
        !f64_bits_is_nan(a.min_value),
        !f64_bits_is_nan(a.max_value),
    ensures
        spec_diff_for_rescan(a, a) == 0,
{
    assert((0u32 | 0u32) == 0u32) by (bit_vector);
}

/// The difference between two descriptions does not depend on their order.
pub proof fn lemma_diff_for_rescan_symmetric(a: ParamInfoView, b: ParamInfoView)
    ensures
        spec_diff_for_rescan(a, b) == spec_diff_for_rescan(b, a),
{
}

/// Writes the text of a parameter value into a host-provided byte buffer, keeping the last byte
/// for a nul terminator.
pub struct ParamDisplayWriter {
    cursor_position: usize,
    buffer: Vec<u8>,
}

impl ParamDisplayWriter {
    /// The bytes of the buffer.
    pub closed spec fn spec_buffer(&self) -> Seq<u8> {
        self.buffer@
    }

    /// The number of bytes written so far.
    pub closed spec fn spec_cursor(&self) -> nat {
        self.cursor_position as nat
    }

    /// The cursor always leaves room for the nul terminator of a non-empty buffer, and stays at
    /// zero in an empty one.
    pub open spec fn wf(&self) -> bool {
        if self.spec_buffer().len() == 0 {
            self.spec_cursor() == 0
        } else {
            self.spec_cursor() < self.spec_buffer().len()
        }
    }

    /// Every writer keeps its cursor in bounds.
    #[verifier::type_invariant]
    spec fn cursor_in_bounds(&self) -> bool {
        self.wf()
    }

    /// Creates a writer over the given buffer, with nothing written yet.
    pub fn new(buffer: Vec<u8>) -> (w: ParamDisplayWriter)
        ensures
            w.spec_buffer() == buffer@,
            w.spec_cursor() == 0,
            w.wf(),
    {
        ParamDisplayWriter { cursor_position: 0, buffer }
    }

    /// The number of text bytes the buffer can hold: its length minus the nul terminator.
    pub fn len(&self) -> (n: usize)
        ensures
            n == if self.spec_buffer().len() == 0 {
                0
            } else {
                self.spec_buffer().len() - 1
            },
    {
        if self.buffer.len() == 0 {
            0
        } else {
            self.buffer.len() - 1
        }
    }

    /// The number of text bytes that can still be written.
    pub fn remaining_len(&self) -> (n: usize)
        ensures
            n == if self.spec_buffer().len() == 0 {
                0
            } else {
                self.spec_buffer().len() - self.spec_cursor() - 1
            },
    {
        proof {
            use_type_invariant(self);
        }
        if self.buffer.len() == 0 {
            0
        } else {
            self.buffer.len() - (self.cursor_position + 1)
        }
    }

    /// Writes as many bytes of the given text as still fit; the rest is dropped. Never fails.
    pub fn write_str(&mut self, s: &str) -> (r: Result<(), ()>)
        ensures
            r is Ok,
            final(self).wf(),
            ({
                let k = min_len(s.spec_bytes().len() as int, remaining(*old(self)));
                &&& final(self).spec_cursor() == old(self).spec_cursor() + k
                &&& final(self).spec_buffer() == old(self).spec_buffer().take(
                    old(self).spec_cursor() as int,
                ) + s.spec_bytes().take(k) + old(self).spec_buffer().skip(
                    old(self).spec_cursor() + k,
                )
            }),
    {
        proof {
            use_type_invariant(&*self);
        }
        let bytes = s.as_bytes();
        let remaining_len = self.remaining_len();
        let requested_len = if bytes.len() < remaining_len {
            bytes.len()
        } else {
            remaining_len
        };
        let start = self.cursor_position;
        let ghost old_buffer = self.buffer@;
        assert(old_buffer.len() == self.buffer.len());
        self.cursor_position = 0;
        let mut buffer: Vec<u8> = Vec::new();
        std::mem::swap(&mut buffer, &mut self.buffer);
        let mut i: usize = 0;
        while i < requested_len
            invariant
                i <= requested_len,
                requested_len <= bytes@.len(),
                start + requested_len <= old_buffer.len(),
                old_buffer.len() <= usize::MAX,
                buffer@.len() == old_buffer.len(),
                buffer@ == old_buffer.take(start as int) + bytes@.take(i as int) + old_buffer.skip(
                    start + i,
                ),
            decreases requested_len - i,
        {
            buffer.set(start + i, bytes[i]);
            i = i + 1;
            assert(buffer@ =~= old_buffer.take(start as int) + bytes@.take(i as int)
                + old_buffer.skip(start + i));
        }
        self.buffer = buffer;
        self.cursor_position = start + requested_len;
        Ok(())
    }

    /// Ends the writing: terminates the text with a nul byte if anything was written, and
    /// returns whether anything was, with the buffer.
    pub fn finish(self) -> (res: (bool, Vec<u8>))
        ensures
            res.0 == (self.spec_cursor() > 0),
            res.1@ == if self.spec_cursor() > 0 {
                self.spec_buffer().update(self.spec_cursor() as int, 0u8)
            } else {
                self.spec_buffer()
            },
    {
        proof {
            use_type_invariant(&self);
        }
        let mut buffer = self.buffer;
        if self.cursor_position > 0 {
            buffer.set(self.cursor_position, 0u8);
        }
        (self.cursor_position > 0, buffer)
    }
}

/// The smaller of two lengths.
pub open spec fn min_len(a: int, b: int) -> int {
    if a < b {
        a
    } else {
        b
    }
}

/// The number of text bytes a writer can still take.
pub open spec fn remaining(w: ParamDisplayWriter) -> int {
    if w.spec_buffer().len() == 0 {
        0
    } else {
        w.spec_buffer().len() - w.spec_cursor() - 1
    }
}

/// The text a plugin left in a display buffer of a host: the bytes before the first nul byte, or
/// the first `u32::MAX` bytes of a buffer that holds none (the length the host can announce).
pub open spec fn spec_display_text(buffer: Seq<u8>) -> Seq<u8> {
    let announced = if buffer.len() <= 0xffff_ffff {
        buffer.len() as int
    } else {
        0xffff_ffff
    };
    if first_nul(buffer) < buffer.len() {
        buffer.take(first_nul(buffer) as int)
    } else {
        buffer.take(announced)
    }
}

/// Returns the text a plugin left in a display buffer of a host.
pub fn display_text(buffer: &[u8]) -> (text: Vec<u8>)
    ensures
        text@ == spec_display_text(buffer@),
{
    let len: usize = if buffer.len() <= 0xffff_ffffusize {
        buffer.len()
    } else {
        0xffff_ffffusize
    };
    let mut text: Vec<u8> = Vec::new();
    let mut i: usize = 0;
    while i < buffer.len() && buffer[i] != 0u8
        invariant
            i <= buffer@.len(),
            text@ == buffer@.take(i as int),
            is_nul_free(buffer@.take(i as int)),
        decreases buffer@.len() - i,
    {
        text.push(buffer[i]);
        i = i + 1;
        assert(text@ =~= buffer@.take(i as int));
    }
    proof {
        crate::utils::lemma_first_nul_characterization(buffer@, i as int);
    }
    if i < buffer.len() {
        text
    } else {
        let mut whole: Vec<u8> = Vec::new();
        let mut j: usize = 0;
        while j < len
            invariant
                j <= len,
                len <= buffer@.len(),
                whole@ == buffer@.take(j as int),
            decreases len - j,
        {
            whole.push(buffer[j]);
            j = j + 1;
            assert(whole@ =~= buffer@.take(j as int));
        }
        whole
    }
}

/// The main-thread side of the parameters extension, for a plugin to implement. Parameter values
/// travel as the bits of their IEEE 754 double-precision representation.
pub trait PluginMainThreadParams {
    /// The number of parameters.
    fn count(&mut self) -> u32;

    /// Writes the description of the parameter at the given index into the host's record.
    fn get_info(&mut self, param_index: u32, info: &mut ParamInfoWriter);

    /// The current value of a parameter, if the plugin has one.
    fn get_value(&mut self, param_id: ClapId) -> Option<u64>;

    /// Writes the text of a parameter value into the host's buffer.
    fn value_to_text(&mut self, param_id: ClapId, value: u64, writer: &mut ParamDisplayWriter) -> Result<
        (),
        (),
    >;

    /// The value that a text (without its nul terminator) stands for, if any.
    fn text_to_value(&mut self, param_id: ClapId, text: &[u8]) -> Option<u64>;
}

/// Answers a host's request for a parameter's value: the plugin gets the identifier that
/// [`ClapId::from_raw`] reads from the raw value; a call with an invalid parameter identifier is
/// refused without reaching the plugin.
pub fn handle_get_value<P: PluginMainThreadParams>(plugin: &mut P, param_id: u32) -> (value: Option<
    u64,
>)
    ensures
        param_id == CLAP_INVALID_ID ==> value is None && *final(plugin) == *old(plugin),
{
    match ClapId::from_raw(param_id) {
        Some(id) => plugin.get_value(id),
        None => None,
    }
}

/// Answers a host's request for the text of a parameter value, written into the host's buffer:
/// the plugin gets what [`value_to_text_call`] gives, and its answer becomes the reply as
/// [`value_to_text_reply`] says. A call with an invalid parameter identifier is refused without
/// reaching the plugin and leaves the buffer as it was. Where the plugin fails, the answer is `false` and what it wrote is left
/// unterminated; else the answer is whether any text was written, which is then nul-terminated.
pub fn handle_value_to_text<P: PluginMainThreadParams>(
    plugin: &mut P,
    param_id: u32,
    value: u64,
    buffer: Vec<u8>,
) -> (r: (bool, Vec<u8>))
    ensures
        param_id == CLAP_INVALID_ID ==> !r.0 && r.1@ == buffer@ && *final(plugin) == *old(plugin),
        r.0 ==> r.1@.contains(0u8),
{
    let (id, mut writer) = match value_to_text_call(param_id, buffer) {
        Ok(call) => call,
        Err(buffer) => {
            return (false, buffer);
        },
    };
    let answer = plugin.value_to_text(id, value, &mut writer);
    let ghost w = writer;
    proof {
        use_type_invariant(&writer);
    }
    let r = value_to_text_reply(answer, writer);
    if r.0 {
        assert(r.1@[w.spec_cursor() as int] == 0u8);
    }
    r
}

/// The call a host's value-to-text request becomes: refused, handing the buffer back as it was,
/// where the parameter identifier is invalid; else the identifier that the raw value stands for,
/// with a writer over the host's buffer that has written nothing yet.
pub fn value_to_text_call(param_id: u32, buffer: Vec<u8>) -> (r: Result<
    (ClapId, ParamDisplayWriter),
    Vec<u8>,
>)
    ensures
        r is Err <==> param_id == CLAP_INVALID_ID,
        r matches Err(b) ==> b@ == buffer@,
        r matches Ok((id, w)) ==> id == ClapId::new_spec(param_id) && w.spec_buffer() == buffer@
            && w.spec_cursor() == 0,
{
    match ClapId::from_raw(param_id) {
        Some(id) => Ok((id, ParamDisplayWriter::new(buffer))),
        None => Err(buffer),
    }
}

/// What a plugin answers a host's value-to-text request with, from its own answer and the writer
/// it wrote the text with: where it succeeded, whether any text was written, and the buffer with
/// the text nul-terminated; where it failed, `false` and the buffer as it stands.
pub fn value_to_text_reply(answer: Result<(), ()>, writer: ParamDisplayWriter) -> (r: (bool, Vec<u8>))
    ensures
        r.0 == (answer is Ok && writer.spec_cursor() > 0),
        r.1@ == (match answer {
            Ok(()) => if writer.spec_cursor() > 0 {
                writer.spec_buffer().update(writer.spec_cursor() as int, 0u8)
            } else {
                writer.spec_buffer()
            },
            Err(()) => writer.spec_buffer(),
        }),
{
    match answer {
        Ok(()) => writer.finish(),
        Err(()) => {
            let ParamDisplayWriter { cursor_position: _, buffer } = writer;
            (false, buffer)
        },
    }
}

/// Answers a host's request for the value a text stands for: the plugin gets the identifier that
/// [`ClapId::from_raw`] reads from the raw value, and the text unchanged; a call with an invalid
/// parameter identifier is refused without reaching the plugin.
pub fn handle_text_to_value<P: PluginMainThreadParams>(plugin: &mut P, param_id: u32, text: &[u8]) -> (value:
    Option<u64>)
    ensures
        param_id == CLAP_INVALID_ID ==> value is None && *final(plugin) == *old(plugin),
{
    match ClapId::from_raw(param_id) {
        Some(id) => plugin.text_to_value(id, text),
        None => None,
    }
}

/// The thread-safe host side of the parameters extension.
pub trait HostParamsImplShared {
    /// The plugin asks for its parameters to be flushed.
    fn request_flush(&self);
}

/// The main-thread host side of the parameters extension.
pub trait HostParamsImplMainThread {
    /// Rescans the parameters as the flags say.
    fn rescan(&mut self, flags: ParamRescanFlags);

    /// Clears what refers to a parameter (automation, modulation) as the flags say.
    fn clear(&mut self, param_id: ClapId, flags: ParamClearFlags);
}

/// Hands a plugin's request to clear what refers to a parameter to the host, with the known bits
/// of the raw flags; a call with an invalid parameter identifier is refused, naming it, without
/// reaching the host.
pub fn handle_clear<H: HostParamsImplMainThread>(host: &mut H, param_id: u32, flags: u32) -> (r:
    Result<(), &'static str>)
    ensures
        r is Err <==> param_id == CLAP_INVALID_ID,
        r matches Err(message) ==> message@ == "Invalid param_id"@,
        r is Err ==> *final(host) == *old(host),
{
    let id = match ClapId::from_raw(param_id) {
        Some(id) => id,
        None => {
            return Err("Invalid param_id");
        },
    };
    host.clear(id, ParamClearFlags::from_bits_truncate(flags));
    Ok(())
}

/// Text that a plugin writes into a fresh display writer is what the host reads back from the
/// finished buffer, cut to the room the buffer has (its length minus the nul terminator).
pub proof fn lemma_display_roundtrip(buffer: Seq<u8>, text: Seq<u8>)
    requires
        buffer.len() >= 2,
        text.len() >= 1,
        is_nul_free(text),
    ensures
        ({
            let k = min_len(text.len() as int, buffer.len() - 1);
            let written = buffer.take(0) + text.take(k) + buffer.skip(k);
            spec_display_text(written.update(k, 0u8)) == text.take(k)
        }),
{
    let k = min_len(text.len() as int, buffer.len() - 1);
    let written = buffer.take(0) + text.take(k) + buffer.skip(k);
    let finished = written.update(k, 0u8);
    assert(finished.take(k) =~= text.take(k));
    assert(finished[k] == 0u8);
    crate::utils::lemma_first_nul_characterization(finished, k);
}

/// The display buffer a host hands to a plugin for a value's text: the given length, all zeros.
pub fn cleared_display_buffer(len: usize) -> (buffer: Vec<u8>)
    ensures
        buffer@ == Seq::new(len as nat, |i: int| 0u8),
{
    let mut buffer: Vec<u8> = Vec::new();
    let mut i: usize = 0;
    while i < len
        invariant
            i <= len,
            buffer@ == Seq::new(i as nat, |j: int| 0u8),
        decreases len - i,
    {
        buffer.push(0u8);
        i = i + 1;
        assert(buffer@ =~= Seq::new(i as nat, |j: int| 0u8));
    }
    buffer
}

/// What a host makes of a plugin's answer to a value-to-text request (`None` where the plugin
/// does not implement it): the text the plugin left in the buffer where it answered `true`, else
/// a failure.
pub fn value_to_text_answer(answer: Option<bool>, buffer: &[u8]) -> (r: Result<Vec<u8>, ()>)
    ensures
        r is Ok <==> answer == Some(true),
        r matches Ok(text) ==> text@ == spec_display_text(buffer@),
{
    match answer {
        Some(true) => Ok(display_text(buffer)),
        _ => Err(()),
    }
}

/// The information rescan flag is reported exactly when the names, the module paths, or the
/// periodic or hidden flags of two descriptions differ: two names of the same length but other
/// bytes count as different.
pub proof fn lemma_rescan_info_tracks_description(a: ParamInfoView, b: ParamInfoView)
    ensures
        spec_diff_for_rescan(a, b) & CLAP_PARAM_RESCAN_INFO != 0 <==> (a.name != b.name || a.module
            != b.module || (a.flags & (CLAP_PARAM_IS_PERIODIC | CLAP_PARAM_IS_HIDDEN)) != (b.flags
            & (CLAP_PARAM_IS_PERIODIC | CLAP_PARAM_IS_HIDDEN))),
{
    lemma_param_bits();
    lemma_rescan_flag_bits(false, false);
    lemma_rescan_flag_bits(false, true);
    lemma_rescan_flag_bits(true, false);
    lemma_rescan_flag_bits(true, true);
}

/// The full rescan flag is reported exactly when the minimum or maximum values of two
/// descriptions compare unequal as doubles, their cookies differ, or one of the flags that need a
/// full rescan differs.
pub proof fn lemma_rescan_all_tracks_range(a: ParamInfoView, b: ParamInfoView)
    ensures
        spec_diff_for_rescan(a, b) & CLAP_PARAM_RESCAN_ALL != 0 <==> (!f64_bits_eq(
            a.min_value,
            b.min_value,
        ) || !f64_bits_eq(a.max_value, b.max_value) || a.cookie != b.cookie || (a.flags
            & 0x7ff9u32) != (b.flags & 0x7ff9u32)),
        spec_diff_for_rescan(a, b) & !(CLAP_PARAM_RESCAN_INFO | CLAP_PARAM_RESCAN_ALL) == 0,
{
    lemma_param_bits();
    lemma_rescan_flag_bits(false, false);
    lemma_rescan_flag_bits(false, true);
    lemma_rescan_flag_bits(true, false);
    lemma_rescan_flag_bits(true, true);
}

/// Writing a description puts each of its plain fields into the raw field of the same name.
pub proof fn lemma_param_info_written_fields(old: RawParamInfoView, data: ParamInfoView)
    ensures
        spec_param_info_written(old, data).id == data.id.value(),
        spec_param_info_written(old, data).flags == data.flags,
        spec_param_info_written(old, data).cookie == data.cookie,
        spec_param_info_written(old, data).min_value == data.min_value,
        spec_param_info_written(old, data).max_value == data.max_value,
        spec_param_info_written(old, data).default_value == data.default_value,
{
}

/// Reading a raw record takes each plain field of the description from the raw field of the same
/// name.
pub proof fn lemma_param_info_read_fields(raw: RawParamInfoView)
    requires
        raw.id != CLAP_INVALID_ID,
    ensures
        spec_param_info_from_raw(raw) matches Some(info) && info.id.value() == raw.id
            && info.cookie == raw.cookie && info.min_value == raw.min_value && info.max_value
            == raw.max_value && info.default_value == raw.default_value,
{
    ClapId::lemma_new_spec_value(ClapId::new_spec(raw.id));
}

} // verus!
