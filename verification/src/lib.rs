//! The verified core of Zeropad, a minimal one-document text editor.
//!
//! The editor's state and the effect of its three actions (Open, Save, New)
//! live in [`editor`]; picking a font file out of a directory listing lives in
//! [`fontsel`]. The surrounding program owns the window, the dialogs and the
//! file reads and writes, and hands their outcomes to these functions as plain
//! values.

pub mod editor;
pub mod fontsel;
