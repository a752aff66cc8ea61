//! The link copier: a link button and a button that copies the link.

use vstd::prelude::*;

verus! {

/// Which parts of the link copier are shown.
#[derive(Debug, Clone, PartialEq, Eq)]
pub enum LinkCopierState {
    Both,
    LinkOnly,
    BtnOnly,
}

/// How a link copier is set up: the link, an optional label, and which parts to show.
#[derive(Debug, Clone, PartialEq, Eq)]
pub struct LinkerCopierCfg {
    pub url: String,
    pub label: Option<String>,
    pub ty: LinkCopierState,
}

/// A link copier.
#[derive(Debug, Clone, PartialEq, Eq)]
pub struct LinkCopierModel;

impl LinkerCopierCfg {
    /// A link copier for `url` showing both parts, labelled with the link.
    pub fn new(url: String) -> (r: LinkerCopierCfg)
        ensures
            r.url == url,
            r.label is None,
            r.ty == LinkCopierState::Both,
    {
        LinkerCopierCfg { url, label: None, ty: LinkCopierState::Both }
    }

    /// The text on the link button: the label, or the link when there is none.
    pub fn link_label(&self) -> (r: String)
        ensures
            r@ == (match self.label {
                Some(l) => l@,
                None => self.url@,
            }),
    {
        match &self.label {
            Some(l) => l.clone(),
            None => self.url.clone(),
        }
    }
}

impl LinkCopierModel {
    /// Which buttons the copier shows: the link button, then the copy button.
    pub fn parts(ty: &LinkCopierState) -> (r: (bool, bool))
        ensures
            r == (match *ty {
                LinkCopierState::Both => (true, true),
                LinkCopierState::LinkOnly => (true, false),
                LinkCopierState::BtnOnly => (false, true),
            }),
    {
        match ty {
            LinkCopierState::Both => (true, true),
            LinkCopierState::LinkOnly => (true, false),
            LinkCopierState::BtnOnly => (false, true),
        }
    }
}

} // verus!
