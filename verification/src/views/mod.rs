//! The state behind the client's and the server's settings views.

pub mod client;
pub mod server;

use vstd::prelude::*;
use crate::text::{truncate, truncated};

verus! {

/// The colour a status is shown in.
#[derive(Debug, Clone, Copy, PartialEq, Eq, Structural)]
pub enum Tone {
    Success,
    Warning,
    Danger,
    Neutral,
}

/// What a discovered server's tile shows: its name cut to 18 characters and
/// its address to 22, and a tooltip where either was cut or the server asks
/// for a passphrase.
#[derive(Debug, Clone)]
pub struct TileText {
    pub name: String,
    pub address: String,
    /// The tooltip's lines: the full name and the full address where they
    /// were cut.
    pub full_name: Option<String>,
    pub full_address: Option<String>,
    /// The tooltip says a passphrase is required.
    pub passphrase_note: bool,
    pub has_tooltip: bool,
}

/// The longest name a tile shows whole.
pub const TILE_NAME_MAX: usize = 18;
/// The longest address a tile shows whole.
pub const TILE_ADDRESS_MAX: usize = 22;

/// The text of a discovered server's tile.
pub fn tile_text(name: &str, address: &str, auth: bool) -> (t: TileText)
    ensures
        (t.name@, t.full_name is Some) == truncated(name@, TILE_NAME_MAX as nat),
        (t.address@, t.full_address is Some) == truncated(address@, TILE_ADDRESS_MAX as nat),
        t.full_name matches Some(n) ==> n@ == name@,
        t.full_address matches Some(a) ==> a@ == address@,
        t.passphrase_note == auth,
        t.has_tooltip == (t.full_name is Some || t.full_address is Some || auth),
{
    let (n, n_cut) = truncate(name, TILE_NAME_MAX);
    let (a, a_cut) = truncate(address, TILE_ADDRESS_MAX);
    TileText {
        name: n,
        address: a,
        full_name: if n_cut { Some(name.to_string()) } else { None },
        full_address: if a_cut { Some(address.to_string()) } else { None },
        passphrase_note: auth,
        has_tooltip: n_cut || a_cut || auth,
    }
}

} // verus!
