//! Control logic of a door alarm built around a GSM modem: interval timing,
//! debounced inputs, the modem's AT-command protocol and the security state
//! machine that ties them together.
pub mod algorithm;
pub mod answer;
pub mod buffer;
pub mod cell;
pub mod debounce;
pub mod indication;
pub mod modem;
pub mod timer;
