//! What the module-proxy collaborator is asked to do for each game variant.

use crate::bootstrap::GameVariant;
use vstd::prelude::*;

verus! {

/// Name of the private data directory below the game directory.
pub const DATA_DIR: &'static str = "guga_ura_data";

/// The renamed module to load for a variant and the entry points to record.
pub struct ProxySetup {
    /// File in the game directory to copy into the data directory first, if
    /// the copy there is missing or older.
    pub copy_from: Option<&'static str>,
    /// File in the data directory to load.
    pub load: &'static str,
    /// Entry points whose addresses are recorded for call forwarding.
    pub exports: Vec<&'static str>,
    /// Whether a missing file or entry point fails the setup.
    pub strict: bool,
}

/// The setup of the Steam release: the video decoder is stood in for; its
/// renamed copy is loaded if it is there.
pub open spec fn steam_setup(setup: ProxySetup) -> bool {
    &&& setup.copy_from is None
    &&& setup.load@ == "cri_mana_vpx_orig.dll"@
    &&& setup.exports@.len() == 3
    &&& setup.exports@[0]@ == "criVvp9_GetAlphaInterface"@
    &&& setup.exports@[1]@ == "criVvp9_GetInterface"@
    &&& setup.exports@[2]@ == "criVvp9_SetUserAllocator"@
    &&& !setup.strict
}

/// The setup of the DMM release: the player library is stood in for; it is
/// copied to the data directory and loaded from there.
pub open spec fn dmm_setup(setup: ProxySetup) -> bool {
    &&& setup.copy_from matches Some(source)
    &&& source@ == "UnityPlayer.dll"@
    &&& setup.load@ == "UnityPlayer_orig.dll"@
    &&& setup.exports@.len() == 1
    &&& setup.exports@[0]@ == "UnityMain"@
    &&& setup.strict
}

/// Names the proxy setup of a variant.
pub fn proxy_setup(variant: GameVariant) -> (setup: ProxySetup)
    ensures
        match variant {
            GameVariant::Steam => steam_setup(setup),
            GameVariant::Dmm => dmm_setup(setup),
        },
{
    match variant {
        GameVariant::Steam => ProxySetup {
            copy_from: None,
            load: "cri_mana_vpx_orig.dll",
            exports: vec![
                "criVvp9_GetAlphaInterface",
                "criVvp9_GetInterface",
                "criVvp9_SetUserAllocator",
            ],
            strict: false,
        },
        GameVariant::Dmm => ProxySetup {
            copy_from: Some("UnityPlayer.dll"),
            load: "UnityPlayer_orig.dll",
            exports: vec!["UnityMain"],
            strict: true,
        },
    }
}

/// The copy in the data directory can be used as it is: both modification
/// times are known and the copy is not older than its source.
pub open spec fn copy_is_current(
    copy_exists: bool,
    source_modified: Option<u128>,
    copy_modified: Option<u128>,
) -> bool {
    &&& copy_exists
    &&& source_modified matches Some(source)
    &&& copy_modified matches Some(copy)
    &&& copy >= source
}

/// Whether the module has to be copied into the data directory before it is
/// loaded from there.
pub fn prepare_orig_dll(
    copy_exists: bool,
    source_modified: Option<u128>,
    copy_modified: Option<u128>,
) -> (copy: bool)
    ensures
        copy == !copy_is_current(copy_exists, source_modified, copy_modified),
{
    if !copy_exists {
        return true;
    }
    match (source_modified, copy_modified) {
        (Some(source), Some(copy)) => copy < source,
        _ => true,
    }
}

} // verus!
