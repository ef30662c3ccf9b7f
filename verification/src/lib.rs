//! The decisions of a service that serves and edits the text of the Quran:
//! mushafs, surahs, ayahs, words, and the translations of names.
//!
//! The heart of the library is the answer for one surah. The store holds
//! the text word by word; [`aggregate`] groups the words by ayah, [`ayah`]
//! resolves the bismillah state of each ayah, [`render`] puts an ayah into
//! the shape that a request asks for, [`names`] finds the translated name of
//! the surah, and [`surah`] puts the answer together.
//!
//! The library never talks to the store. Each handler is a function that
//! takes the stage that a request has reached and the store's reply to the
//! last question, and says what to ask or to answer next: [`surah_view`],
//! [`ayah_edit`], [`organization`] and [`translation`]. The caller asks.

pub mod ident;
pub mod text;
pub mod error;
pub mod ayah;
pub mod aggregate;
pub mod render;
pub mod names;
pub mod surah;
pub mod surah_view;
pub mod ayah_edit;
pub mod organization;
pub mod translation;
