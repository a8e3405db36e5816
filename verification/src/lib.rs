//! An in-memory kanban board: named lists of text cards, a cursor, and an
//! edit mode, with every operation specified and verified.

pub mod action;
pub mod app;
pub mod db;
pub mod handler;
pub mod laws;
pub mod model;
pub mod text;
pub mod ui;
