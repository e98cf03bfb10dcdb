//! The decisions behind the Usine board, free of any window or process: what
//! each panel shows, which command a gesture sends, how an executor event
//! changes what is on screen.

pub mod actions;
pub mod adoptdialog;
pub mod board;
pub mod card;
pub mod cardmenu;
pub mod chat;
pub mod cli;
pub mod command;
pub mod confirm;
pub mod conclusion;
pub mod copies;
pub mod demo;
pub mod detail;
pub mod diffdialog;
pub mod diffview;
pub mod drafts;
pub mod edit;
pub mod fixes;
pub mod lists;
pub mod markdown;
pub mod mdlaws;
pub mod model;
pub mod newcard;
pub mod outside;
pub mod plan;
pub mod pr_create;
pub mod pr_review;
pub mod resize;
pub mod reviewboard;
pub mod reviewdraft;
pub mod reviewpanel;
pub mod search;
pub mod settings;
pub mod sidebar;
pub mod state;
pub mod stress;
pub mod text;
pub mod textfield;
pub mod toast;
pub mod transcript;
pub mod usagebar;
pub mod widgets;
