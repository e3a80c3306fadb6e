//! Providers: for each upstream, what a caller request becomes on its way
//! there.

pub mod bedrock;
