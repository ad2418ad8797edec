//! Writing config back into config files, and the choices `dist init` makes

pub mod apply_dist;
pub mod interactive;
pub mod setup;
