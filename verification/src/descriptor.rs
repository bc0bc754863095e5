//! Descriptor selection: folds two mutually exclusive key options into one
//! tagged descriptor variant.

use vstd::prelude::*;

verus! {

/// A wallet descriptor template: how spending conditions are derived from a
/// single key `K`. The key type itself is opaque to this core.
#[derive(Clone, Debug, PartialEq, Eq)]
pub enum RgbDescr<K> {
    /// Single-key Taproot-commitment descriptor.
    TapretKey(K),
    /// Witness-public-key-hash descriptor.
    Wpkh(K),
}

/// The two optional descriptor choices a caller may configure. At most one
/// is expected to be present; when both are, the Taproot-commitment form
/// takes precedence.
#[derive(Clone, Debug, PartialEq, Eq)]
pub struct DescrRgbOpts<K> {
    /// Use a tapret(KEY) descriptor as the wallet.
    pub tapret_key_only: Option<K>,
    /// Use a wpkh(KEY) descriptor as the wallet.
    pub wpkh: Option<K>,
}

impl<K: Clone> DescrRgbOpts<K> {
    /// Whether any descriptor is configured; absence means "no descriptor".
    pub fn is_some(&self) -> (r: bool)
        ensures
            r == (self.tapret_key_only is Some || self.wpkh is Some),
    {
        self.tapret_key_only.is_some() || self.wpkh.is_some()
    }

    /// The configured descriptor, if any: the Taproot-commitment key wins
    /// over the witness-public-key-hash key, and no choice yields `None`.
    pub fn descriptor(&self) -> (r: Option<RgbDescr<K>>)
        ensures
            self.tapret_key_only matches Some(k) ==> (r matches Some(d)
                && d matches RgbDescr::TapretKey(k2) && cloned(k, k2)),
            self.tapret_key_only is None ==> (self.wpkh matches Some(k) ==> (r matches Some(d)
                && d matches RgbDescr::Wpkh(k2) && cloned(k, k2))),
            self.tapret_key_only is None && self.wpkh is None ==> r is None,
    {
        match &self.tapret_key_only {
            Some(k) => Some(RgbDescr::TapretKey(k.clone())),
            None => match &self.wpkh {
                Some(k) => Some(RgbDescr::Wpkh(k.clone())),
                None => None,
            },
        }
    }
}

} // verus!
