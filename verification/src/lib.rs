//! A small library of verified exercises built around a persistent,
//! reference-counted singly-linked list with structural sharing.

pub mod closures;
pub mod config;
pub mod dispatch;
pub mod fallible;
pub mod idioms;
pub mod list;
pub mod people;
pub mod points;
pub mod seconds;
pub mod text;
pub mod wrapper;
