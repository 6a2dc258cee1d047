//! Bookkeeping core of an embedding bridge for the QuickJS engine: owned
//! references with exact release accounting, a handle cache addressed by
//! small integer ids, a native class registry, and the decisions of the
//! evaluate-then-drain-jobs cycle.
pub mod eserror;
pub mod eval;
pub mod quickjsruntime;
pub mod reflection;
pub mod valueref;
