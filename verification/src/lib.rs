//! Verified core of an angle-measuring tool for images and video frames:
//! the frame list and its selection, the pointer and drag bookkeeping of the
//! angle editor, the sorting of loaded files, and the text it shows or saves.
pub mod text;
pub mod frames;
pub mod loading;
pub mod pointers;
pub mod session;
pub mod naming;
