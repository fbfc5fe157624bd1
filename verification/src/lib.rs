//! Decision logic of a family of hardware video-encoder backends.
//!
//! Each backend module holds what its encoder decides and computes: which parameters a driver is
//! asked for, which frame is forced, marked or re-referenced, how output is paired with input and
//! how a failure is answered. The driver calls themselves belong to the application, which performs
//! the actions this library returns and reports their outcome back.
#![allow(unused_imports)]

pub mod amf;
pub mod amf_sys;
pub mod ffmpeg_win;
pub mod flow;
pub mod layout;
pub mod ltr;
pub mod nvenc;
pub mod nvenc_d3d11;
pub mod qsv;
pub mod rfi;
pub mod text;
pub mod types;
pub mod vk_av1_encode;
