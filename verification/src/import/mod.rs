//! Importing baseline assets from spreadsheets.

pub mod excel;
