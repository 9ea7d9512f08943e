//! Verified core of a desktop audio recorder.
//!
//! The crate holds the decisions of a capture pipeline and leaves every
//! effect (threads, devices, files, clocks) to its caller: the caller reports
//! what happened, the types here say what to do next.
//!
//! * [`frame`]: the fixed audio format and the frame that carries samples.
//! * [`queue`]: the bounded frame queue between capture and writer.
//! * [`wav`]: the WAV container as bytes: header, sample data, size fields.
//! * [`session`]: the life cycle of one capture session.
//! * [`naming`]: the name of the file a recording goes to.
//! * [`device`]: the catalog of input and output devices.
//! * [`recorder`]: the controller that the command surface talks to.
//! * [`commands`]: the command surface and the words of its replies.

pub mod frame;
pub mod queue;
pub mod wav;
pub mod naming;
pub mod device;
pub mod recorder;
pub mod session;
pub mod commands;
