//! The records that classification returns. A field borrows from the
//! user-agent text or from the rules where it can, and owns its text where a
//! template built it; `into_owned` detaches a record from both.

use std::borrow::Cow;
use vstd::prelude::*;

verus! {

/// A text field: absent, or some characters.
pub type FieldModel = Option<Seq<char>>;

/// The field holds no borrowed text.
pub open spec fn is_detached(f: Option<Cow<'_, str>>) -> bool {
    f matches Some(Cow::Owned(_)) || f is None
}

/// The same text, owned.
pub fn detach(f: Option<Cow<'_, str>>) -> (r: Option<Cow<'static, str>>)
    ensures
        r.deep_view() == f.deep_view(),
        is_detached(r),
{
    match f {
        Some(Cow::Borrowed(s)) => Some(Cow::Owned(s.to_owned())),
        Some(Cow::Owned(s)) => Some(Cow::Owned(s)),
        None => None,
    }
}

/// The software product (browser, application, crawler).
#[derive(Debug, Clone, Default)]
pub struct Product<'a> {
    pub name: Option<Cow<'a, str>>,
    pub major: Option<Cow<'a, str>>,
    pub minor: Option<Cow<'a, str>>,
    pub patch: Option<Cow<'a, str>>,
}

impl<'a> View for Product<'a> {
    type V = Seq<FieldModel>;

    open spec fn view(&self) -> Seq<FieldModel> {
        seq![
            self.name.deep_view(),
            self.major.deep_view(),
            self.minor.deep_view(),
            self.patch.deep_view(),
        ]
    }
}

impl<'a> Product<'a> {
    /// Extracts the owned data.
    pub fn into_owned(self) -> (r: Product<'static>)
        ensures
            r@ == self@,
            is_detached(r.name) && is_detached(r.major) && is_detached(r.minor) && is_detached(
                r.patch,
            ),
    {
        Product {
            name: detach(self.name),
            major: detach(self.major),
            minor: detach(self.minor),
            patch: detach(self.patch),
        }
    }
}

/// The operating system.
#[derive(Debug, Clone, Default)]
pub struct OS<'a> {
    pub name: Option<Cow<'a, str>>,
    pub major: Option<Cow<'a, str>>,
    pub minor: Option<Cow<'a, str>>,
    pub patch: Option<Cow<'a, str>>,
    pub patch_minor: Option<Cow<'a, str>>,
}

impl<'a> View for OS<'a> {
    type V = Seq<FieldModel>;

    open spec fn view(&self) -> Seq<FieldModel> {
        seq![
            self.name.deep_view(),
            self.major.deep_view(),
            self.minor.deep_view(),
            self.patch.deep_view(),
            self.patch_minor.deep_view(),
        ]
    }
}

impl<'a> OS<'a> {
    /// Extracts the owned data.
    pub fn into_owned(self) -> (r: OS<'static>)
        ensures
            r@ == self@,
            is_detached(r.name) && is_detached(r.major) && is_detached(r.minor) && is_detached(
                r.patch,
            ) && is_detached(r.patch_minor),
    {
        OS {
            name: detach(self.name),
            major: detach(self.major),
            minor: detach(self.minor),
            patch: detach(self.patch),
            patch_minor: detach(self.patch_minor),
        }
    }
}

/// The device.
#[derive(Debug, Clone, Default)]
pub struct Device<'a> {
    pub name: Option<Cow<'a, str>>,
    pub brand: Option<Cow<'a, str>>,
    pub model: Option<Cow<'a, str>>,
}

impl<'a> View for Device<'a> {
    type V = Seq<FieldModel>;

    open spec fn view(&self) -> Seq<FieldModel> {
        seq![self.name.deep_view(), self.brand.deep_view(), self.model.deep_view()]
    }
}

impl<'a> Device<'a> {
    /// Extracts the owned data.
    pub fn into_owned(self) -> (r: Device<'static>)
        ensures
            r@ == self@,
            is_detached(r.name) && is_detached(r.brand) && is_detached(r.model),
    {
        Device { name: detach(self.name), brand: detach(self.brand), model: detach(self.model) }
    }
}

/// The CPU architecture.
#[derive(Debug, Clone, Default)]
pub struct CPU<'a> {
    pub architecture: Option<Cow<'a, str>>,
}

impl<'a> View for CPU<'a> {
    type V = Seq<FieldModel>;

    open spec fn view(&self) -> Seq<FieldModel> {
        seq![self.architecture.deep_view()]
    }
}

impl<'a> CPU<'a> {
    /// Extracts the owned data.
    pub fn into_owned(self) -> (r: CPU<'static>)
        ensures
            r@ == self@,
            is_detached(r.architecture),
    {
        CPU { architecture: detach(self.architecture) }
    }
}

/// The rendering engine.
#[derive(Debug, Clone, Default)]
pub struct Engine<'a> {
    pub name: Option<Cow<'a, str>>,
    pub major: Option<Cow<'a, str>>,
    pub minor: Option<Cow<'a, str>>,
    pub patch: Option<Cow<'a, str>>,
}

impl<'a> View for Engine<'a> {
    type V = Seq<FieldModel>;

    open spec fn view(&self) -> Seq<FieldModel> {
        seq![
            self.name.deep_view(),
            self.major.deep_view(),
            self.minor.deep_view(),
            self.patch.deep_view(),
        ]
    }
}

impl<'a> Engine<'a> {
    /// Extracts the owned data.
    pub fn into_owned(self) -> (r: Engine<'static>)
        ensures
            r@ == self@,
            is_detached(r.name) && is_detached(r.major) && is_detached(r.minor) && is_detached(
                r.patch,
            ),
    {
        Engine {
            name: detach(self.name),
            major: detach(self.major),
            minor: detach(self.minor),
            patch: detach(self.patch),
        }
    }
}

/// The raw user-agent text of a request, if it had one.
#[derive(Debug, Clone, Default)]
pub struct UserAgent<'a> {
    pub user_agent: Option<Cow<'a, str>>,
}

impl<'a> UserAgent<'a> {
    /// Extracts the owned data.
    pub fn into_owned(self) -> (r: UserAgent<'static>)
        ensures
            r.user_agent.deep_view() == self.user_agent.deep_view(),
            is_detached(r.user_agent),
    {
        UserAgent { user_agent: detach(self.user_agent) }
    }
}

} // verus!
