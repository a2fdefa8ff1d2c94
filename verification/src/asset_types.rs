//! The four-character codes of asset types.
use vstd::prelude::*;

verus! {

/// 'Prop': a prop asset.
pub const RT_PROP: u32 = 0x50726f70;

/// 'User': the user database.
pub const RT_USERBASE: u32 = 0x55736572;

/// 'IUsr': the IP user database.
pub const RT_IPUSERBASE: u32 = 0x49557372;

} // verus!
