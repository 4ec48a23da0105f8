//! State, rules and semantic scenes of a handheld console shell.
//!
//! The crate holds the decisions of the shell: what every input does to the
//! visible state, which effects leave the shell, and which nodes a scene shows.
//! Reading devices, painting and measuring stay with the embedding program,
//! which hands plain values in and takes plain values back.

pub mod actions;
pub mod activation;
pub mod answers;
pub mod art;
pub mod boot;
pub mod calendar;
pub mod calls;
pub mod cards;
pub mod catalog;
pub mod chrome;
pub mod clock;
pub mod collection;
pub mod cutting;
pub mod detail_scene;
pub mod figures;
pub mod guards;
pub mod history;
pub mod home_scene;
pub mod laws;
pub mod library;
pub mod library_scene;
pub mod listing;
pub mod manners;
pub mod motifs;
pub mod moves;
pub mod navigation;
pub mod ownership;
pub mod panel_scene;
pub mod playtime;
pub mod ports;
pub mod preferences;
pub mod reading;
pub mod records;
pub mod reports;
pub mod scene;
pub mod services;
pub mod session;
pub mod settings;
pub mod settings_scene;
pub mod stage;
pub mod state;
pub mod surface;
pub mod telling;
pub mod telling_chrome;
pub mod telling_settings;
pub mod telling_titles;
pub mod text;
pub mod textlist;
pub mod textmap;
pub mod titles;
pub mod walking;
pub mod wishes;
pub mod wording;
