//! The libraries that may be embedded in the configuration tool.

use crate::text::decimal;
use crate::text::decimal_of;
use vstd::prelude::*;
use vstd::string::StringExecFns;

verus! {

/// Both libraries are embedded.
pub open spec fn embedded(unity_player: Seq<u8>, apphelp: Seq<u8>) -> bool {
    unity_player.len() > 0 && apphelp.len() > 0
}

/// The line that tells which libraries are embedded, with their sizes in
/// whole kilobytes.
pub open spec fn embedded_info(unity_player: Seq<u8>, apphelp: Seq<u8>) -> Seq<char> {
    if embedded(unity_player, apphelp) {
        "内嵌: UnityPlayer.dll ("@ + decimal_of(unity_player.len() / 1024) + " KB), apphelp.dll ("@
            + decimal_of(apphelp.len() / 1024) + " KB)"@
    } else {
        "未内嵌 DLL（将从外部文件加载）"@
    }
}

/// Whether both libraries are embedded.
pub fn has_embedded_dlls(unity_player: &[u8], apphelp: &[u8]) -> (both: bool)
    ensures
        both == embedded(unity_player@, apphelp@),
{
    unity_player.len() > 0 && apphelp.len() > 0
}

/// Describes what is embedded.
pub fn get_embedded_info(unity_player: &[u8], apphelp: &[u8]) -> (info: String)
    ensures
        info@ == embedded_info(unity_player@, apphelp@),
{
    if has_embedded_dlls(unity_player, apphelp) {
        let mut info = String::from_str("内嵌: UnityPlayer.dll (");
        info.append(decimal(unity_player.len() / 1024).as_str());
        info.append(" KB), apphelp.dll (");
        info.append(decimal(apphelp.len() / 1024).as_str());
        info.append(" KB)");
        info
    } else {
        String::from_str("未内嵌 DLL（将从外部文件加载）")
    }
}

} // verus!
