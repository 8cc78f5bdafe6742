//! Data model of named workspaces: projects, bookmarks and notes.
//! Timestamps are plain epoch seconds; the shell converts to and from
//! calendar dates.

use vstd::prelude::*;

verus! {

/// A saved link. `created_at` is epoch seconds.
#[derive(Debug, Clone)]
pub struct Bookmark {
    pub title: String,
    pub url: String,
    pub tags: Vec<String>,
    pub created_at: u64,
}

/// A free-form note. `updated_at` is epoch seconds.
#[derive(Debug, Clone)]
pub struct Note {
    pub title: String,
    pub content: String,
    pub tags: Vec<String>,
    pub updated_at: u64,
}

/// A project inside a workspace.
#[derive(Debug, Clone)]
pub struct Project {
    pub name: String,
    pub urls: Vec<String>,
    pub environment: Vec<(String, String)>,
    pub auto_refresh: bool,
    pub watch_paths: Vec<String>,
}

/// A named collection of projects, bookmarks and notes.
#[derive(Debug, Clone)]
pub struct Workspace {
    pub name: String,
    pub projects: Vec<Project>,
    pub bookmarks: Vec<Bookmark>,
    pub notes: Vec<Note>,
}

} // verus!
