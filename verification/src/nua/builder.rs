//! Collecting what the creation of an agent or of a dialog handle takes:
//! the reactor, where it is not to be the default one, and the tags.

use crate::error::Error;
use crate::nua::handle::create_next as handle_create_next;
use crate::nua::handle::creates as creates_handle;
use crate::nua::handle::Handle;
use crate::nua::nua::create_next;
use crate::nua::nua::creates;
use crate::nua::nua::creates_on_default_root;
use crate::nua::nua::Nua;
use crate::nua::nua::NuaView;
use crate::su::get_default_root_next;
use crate::su::Root;
use crate::su::Su;
use crate::su::SuView;
use crate::sys::Progress;
use crate::sys::Reply;
use crate::tag::builder::tag_views;
use crate::tag::tag::Tag;
use crate::tag::tag::TagView;
use vstd::prelude::*;

verus! {

/// The reactor and the tags for an agent or a dialog handle to come.
#[derive(Debug)]
pub struct Builder<'a> {
    root: Option<&'a Root>,
    tags: Vec<Tag>,
}

/// A [`Builder`] as plain values.
pub struct BuilderView {
    /// The address of the reactor that was named, if one was.
    pub root: Option<usize>,
    pub tags: Seq<TagView>,
}

impl<'a> View for Builder<'a> {
    type V = BuilderView;

    closed spec fn view(&self) -> BuilderView {
        BuilderView {
            root: match self.root {
                Some(root) => Some(root@),
                None => None,
            },
            tags: tag_views(self.tags@),
        }
    }
}

/// What the creation of an agent from a builder owes: the agent is
/// created with the builder's tags, on the reactor that the builder names
/// or, where it names none, on the default reactor.
pub open spec fn builds_nua(
    builder: BuilderView,
    nua: NuaView,
    su: SuView,
    magic: usize,
    reply: Reply,
    nua_after: NuaView,
    su_after: SuView,
    next: Progress<Result<(), Error>>,
) -> bool {
    match builder.root {
        Some(root) => {
            &&& su_after == su
            &&& nua_after == create_next(nua, root, magic, reply).0
            &&& creates(next, create_next(nua, root, magic, reply).1, root, magic, builder.tags)
        },
        None => {
            &&& su_after == get_default_root_next(su, reply).0
            &&& creates_on_default_root(
                nua,
                get_default_root_next(su, reply).1,
                magic,
                builder.tags,
                reply,
                nua_after,
                next,
            )
        },
    }
}

impl<'a> Builder<'a> {
    /// A builder that names no reactor and holds no tag.
    pub fn default() -> (builder: Builder<'a>)
        ensures
            builder@ == (BuilderView { root: None, tags: Seq::empty() }),
    {
        let builder = Builder { root: None, tags: Vec::<Tag>::new() };
        assert(builder@.tags =~= Seq::<TagView>::empty());
        builder
    }

    /// Adds a tag behind those already given.
    pub fn tag(self, tag: Tag) -> (builder: Builder<'a>)
        ensures
            builder@ == (BuilderView { tags: self@.tags.push(tag@), ..self@ }),
    {
        let mut tags = self.tags;
        tags.push(tag);
        let builder = Builder { root: self.root, tags };
        assert(builder@.tags =~= self@.tags.push(tag@));
        builder
    }

    /// Names the reactor that is to drive the agent.
    pub fn root(self, root: &'a Root) -> (builder: Builder<'a>)
        ensures
            builder@ == (BuilderView { root: Some(root@), ..self@ }),
    {
        Builder { root: Some(root), tags: self.tags }
    }

    /// The tags, in the order in which they were given.
    pub fn create_tags(self) -> (tags: Vec<Tag>)
        ensures
            tag_views(tags@) == self@.tags,
    {
        self.tags
    }

    /// Creates `nua` on the reactor that was named, or on the default
    /// reactor where none was.
    pub fn create_nua(&self, nua: &mut Nua, su: &mut Su, magic: usize, reply: Reply) -> (next:
        Progress<Result<(), Error>>)
        ensures
            builds_nua(self@, old(nua)@, old(su)@, magic, reply, final(nua)@, final(su)@, next),
    {
        match self.root {
            Some(root) => nua.create_with_root(root, magic, self.tags.as_slice(), reply),
            None => nua.create(su, magic, self.tags.as_slice(), reply),
        }
    }

    /// Creates `nua` on the reactor that was named, or on the default
    /// reactor where none was.
    pub fn create(&self, nua: &mut Nua, su: &mut Su, magic: usize, reply: Reply) -> (next:
        Progress<Result<(), Error>>)
        ensures
            builds_nua(self@, old(nua)@, old(su)@, magic, reply, final(nua)@, final(su)@, next),
    {
        self.create_nua(nua, su, magic, reply)
    }

    /// Creates `handle` under `nua` with the tags given.
    pub fn create_handle(&self, handle: &mut Handle, nua: &Nua, magic: usize, reply: Reply) -> (next:
        Progress<Result<(), Error>>)
        ensures
            final(handle)@ == handle_create_next(old(handle)@, nua@.c_ptr, magic, reply).0,
            creates_handle(
                next,
                handle_create_next(old(handle)@, nua@.c_ptr, magic, reply).1,
                nua@.c_ptr,
                magic,
                self@.tags,
            ),
    {
        handle.create(nua, magic, self.tags.as_slice(), reply)
    }
}

} // verus!
