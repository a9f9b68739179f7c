//! Fingerprinting of NetScaler Gateway builds: the build stamp carried by a
//! compressed static resource, the identity on the presented certificate, the
//! join against a table of known builds, and the bookkeeping that bounds how
//! many probes run at once.

pub mod address;
pub mod catalog;
pub mod certificate;
pub mod gate;
pub mod outcome;
pub mod stamp;
pub mod text;
