//! Decision logic of a raw-to-DNG converter.
//!
//! A conversion is a course of outside work (decoding, compressing, writing) with decisions in
//! between. The decisions stand here; the work is done by the caller.
//!
//! * [`params`]: the settings of a conversion and what it reports back.
//! * [`image`]: what is known of a decoded image, its rotation and its photometric conversion.
//! * [`tags`]: which directory tags are set, carried over or removed.
//! * [`modify_date`]: the reproducible `ModifyDate` tag.
//! * [`stage`], [`action`], [`conversion`]: the course of a conversion, one piece of work at a
//!   time.
//! * [`reembed`]: the command line that replaces a preview, and how the output is replaced.
//! * [`text`]: names and messages.
//! * [`laws`]: what holds of every course.
//! * [`outcome`]: what a course asks for, told by its settings and the replies.

pub mod action;
pub mod conversion;
pub mod image;
pub mod laws;
pub mod modify_date;
pub mod outcome;
pub mod params;
pub mod reembed;
pub mod stage;
pub mod tags;
pub mod text;
