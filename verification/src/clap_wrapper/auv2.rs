//! How a CLAP plugin is advertised as an AUv2 plugin.

use vstd::prelude::*;
use crate::utils::is_nul_free;
use vstd::string::StringSliceAdditionalSpecFns;

verus! {

/// The C-compatible record that holds the AUv2 type and subtype codes, each nul-terminated.
#[allow(non_camel_case_types)]
#[derive(Debug, Copy, Clone)]
pub struct clap_plugin_info_as_auv2 {
    pub au_type: [u8; 5],
    pub au_subt: [u8; 5],
}

/// The AUv2 type and subtype codes of a plugin.
#[derive(Debug, Copy, Clone)]
pub struct PluginInfoAsAUv2 {
    inner: clap_plugin_info_as_auv2,
}

/// The five bytes that store a four-byte code followed by a nul byte.
pub open spec fn code_bytes(code: Seq<u8>) -> Seq<u8> {
    code + seq![0u8]
}

impl PluginInfoAsAUv2 {
    /// The stored type code, as five bytes.
    pub closed spec fn spec_au_type(&self) -> Seq<u8> {
        self.inner.au_type@
    }

    /// The stored subtype code, as five bytes.
    pub closed spec fn spec_au_subt(&self) -> Seq<u8> {
        self.inner.au_subt@
    }

    /// An all-zero record, to be filled in by a factory.
    pub(crate) fn empty() -> (info: PluginInfoAsAUv2)
        ensures
            info.spec_au_type() == seq![0u8, 0u8, 0u8, 0u8, 0u8],
            info.spec_au_subt() == seq![0u8, 0u8, 0u8, 0u8, 0u8],
    {
        PluginInfoAsAUv2 { inner: clap_plugin_info_as_auv2 { au_subt: [0u8; 5], au_type: [0u8; 5] } }
    }

    /// Creates the record from two four-byte codes.
    pub fn new(au_type: &str, au_subt: &str) -> (info: PluginInfoAsAUv2)
        requires
            au_type.spec_bytes().len() == 4,
            au_subt.spec_bytes().len() == 4,
        ensures
            info.spec_au_type() == code_bytes(au_type.spec_bytes()),
            info.spec_au_subt() == code_bytes(au_subt.spec_bytes()),
    {
        let t = au_type.as_bytes();
        let s = au_subt.as_bytes();
        let inner = clap_plugin_info_as_auv2 {
            au_type: [t[0], t[1], t[2], t[3], 0u8],
            au_subt: [s[0], s[1], s[2], s[3], 0u8],
        };
        let info = PluginInfoAsAUv2 { inner };
        assert(info.spec_au_type() =~= code_bytes(au_type.spec_bytes()));
        assert(info.spec_au_subt() =~= code_bytes(au_subt.spec_bytes()));
        info
    }

    /// The stored type code.
    pub fn au_type(&self) -> (code: &[u8; 5])
        ensures
            code@ == self.spec_au_type(),
    {
        &self.inner.au_type
    }

    /// The stored subtype code.
    pub fn au_subt(&self) -> (code: &[u8; 5])
        ensures
            code@ == self.spec_au_subt(),
    {
        &self.inner.au_subt
    }

    /// The C-compatible record.
    pub fn as_raw(&self) -> (raw: &clap_plugin_info_as_auv2)
        ensures
            raw.au_type@ == self.spec_au_type(),
            raw.au_subt@ == self.spec_au_subt(),
    {
        &self.inner
    }

    /// The C-compatible record, for writing.
    pub fn as_raw_mut(&mut self) -> (raw: &mut clap_plugin_info_as_auv2)
        ensures
            raw.au_type@ == old(self).spec_au_type(),
            raw.au_subt@ == old(self).spec_au_subt(),
            final(raw).au_type@ == final(self).spec_au_type(),
            final(raw).au_subt@ == final(self).spec_au_subt(),
    {
        &mut self.inner
    }
}

/// Copies the information a factory found into the C-compatible record a host handed over, and
/// says whether there was any; where there was none, the record is left as it was.
pub fn write_auv2_info(found: Option<PluginInfoAsAUv2>, info: &mut clap_plugin_info_as_auv2) -> (written: bool)
    ensures
        written == found.is_some(),
        found matches Some(i) ==> final(info).au_type@ == i.spec_au_type(),
        found matches Some(i) ==> final(info).au_subt@ == i.spec_au_subt(),
        found is None ==> *final(info) == *old(info),
{
    match found {
        Some(i) => {
            *info = i.inner;
            true
        },
        None => false,
    }
}

/// A plugin factory that describes each of its plugins as an AUv2 plugin.
pub trait PluginFactoryAsAUv2Impl {
    /// The AUv2 information of the plugin at the given index, if there is one.
    fn get_auv2_info(&self, index: u32) -> Option<PluginInfoAsAUv2>;
}

/// The C-compatible description of an AUv2 factory: the manufacturer code and name, each held
/// without its nul terminator.
#[allow(non_camel_case_types)]
#[derive(Debug, Copy, Clone)]
pub struct clap_plugin_factory_as_auv2 {
    pub manufacturer_code: &'static [u8],
    pub manufacturer_name: &'static [u8],
}

/// A plugin factory, along with the manufacturer it is advertised under as an AUv2 factory.
pub struct PluginFactoryAsAUv2Wrapper<F> {
    inner: clap_plugin_factory_as_auv2,
    factory: F,
}

impl<F: PluginFactoryAsAUv2Impl> PluginFactoryAsAUv2Wrapper<F> {
    /// The manufacturer code and name.
    pub closed spec fn spec_manufacturer(&self) -> (Seq<u8>, Seq<u8>) {
        (self.inner.manufacturer_code@, self.inner.manufacturer_name@)
    }

    /// The wrapped factory.
    pub closed spec fn spec_factory(&self) -> F {
        self.factory
    }

    /// Wraps a factory with its manufacturer code and name, which must hold no nul byte.
    pub fn new(manufacturer_code: &'static [u8], manufacturer_name: &'static [u8], factory: F) -> (w: Self)
        requires
            is_nul_free(manufacturer_code@),
            is_nul_free(manufacturer_name@),
        ensures
            w.spec_manufacturer() == (manufacturer_code@, manufacturer_name@),
            w.spec_factory() == factory,
    {
        PluginFactoryAsAUv2Wrapper {
            inner: clap_plugin_factory_as_auv2 { manufacturer_code, manufacturer_name },
            factory,
        }
    }

    /// The C-compatible description.
    pub fn as_raw(&self) -> (raw: &clap_plugin_factory_as_auv2)
        ensures
            (raw.manufacturer_code@, raw.manufacturer_name@) == self.spec_manufacturer(),
    {
        &self.inner
    }

    /// Answers a host's request for the AUv2 information of the plugin at the given index: asks the
    /// wrapped factory and copies what it found into the record.
    pub fn get_auv2_info(&self, index: u32, info: &mut clap_plugin_info_as_auv2) -> (written: bool)
        ensures
            !written ==> *final(info) == *old(info),
    {
        let found = self.factory.get_auv2_info(index);
        write_auv2_info(found, info)
    }
}

} // verus!
