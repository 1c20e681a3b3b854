//! Small sum types used by descriptor fields that accept more than one
//! document shape, and the marker for workspace-delegated fields.

use vstd::prelude::*;

verus! {

/// A field that is written either as a plain string or as a boolean toggle.
#[derive(Debug, Clone, PartialEq, Eq)]
pub enum StringOrBool {
    Text(String),
    Flag(bool),
}

/// A field that is written either as one string or as a list of strings.
#[derive(Debug, Clone, PartialEq, Eq)]
pub struct StringOrVec(pub Vec<String>);

/// A field that is written either as an unsigned number or as a boolean.
#[derive(Debug, Clone, Copy, PartialEq, Eq)]
pub enum U32OrBool {
    Num(u32),
    Flag(bool),
}

/// A field that is written either as a list of strings or as a boolean.
#[derive(Debug, Clone, PartialEq, Eq)]
pub enum VecStringOrBool {
    List(Vec<String>),
    Flag(bool),
}

/// A field value that is either given explicitly or delegated to the
/// enclosing workspace. The marker must not outlive canonicalization:
/// resolving it against a missing workspace or a missing workspace field
/// is an error, never a silent default.
#[derive(Debug, Clone, PartialEq, Eq)]
pub enum MaybeWorkspace<T> {
    Workspace,
    Defined(T),
}

impl<T> MaybeWorkspace<T> {
    /// Wraps a present value as an explicitly defined one; an absent value
    /// stays absent.
    pub fn from_option(value: Option<T>) -> (r: Option<Self>)
        ensures
            match value {
                Some(v) => r matches Some(m) && m matches MaybeWorkspace::Defined(x) && x == v,
                None => r is None,
            },
    {
        match value {
            Some(value) => Some(Self::Defined(value)),
            None => None,
        }
    }
}

} // verus!

verus! {

/// The mathematical shape of a string-or-boolean field.
pub ghost enum StringOrBoolView {
    Text(Seq<char>),
    Flag(bool),
}

impl DeepView for StringOrBool {
    type V = StringOrBoolView;

    open spec fn deep_view(&self) -> StringOrBoolView {
        match *self {
            StringOrBool::Text(ref s) => StringOrBoolView::Text(s@),
            StringOrBool::Flag(b) => StringOrBoolView::Flag(b),
        }
    }
}

impl DeepView for StringOrVec {
    type V = Seq<Seq<char>>;

    open spec fn deep_view(&self) -> Seq<Seq<char>> {
        self.0.deep_view()
    }
}

impl DeepView for U32OrBool {
    type V = U32OrBool;

    open spec fn deep_view(&self) -> U32OrBool {
        *self
    }
}

/// The mathematical shape of a list-or-boolean field.
pub ghost enum VecStringOrBoolView {
    List(Seq<Seq<char>>),
    Flag(bool),
}

impl DeepView for VecStringOrBool {
    type V = VecStringOrBoolView;

    open spec fn deep_view(&self) -> VecStringOrBoolView {
        match *self {
            VecStringOrBool::List(ref v) => VecStringOrBoolView::List(v.deep_view()),
            VecStringOrBool::Flag(b) => VecStringOrBoolView::Flag(b),
        }
    }
}

impl<T: DeepView> DeepView for MaybeWorkspace<T> {
    type V = MaybeWorkspace<T::V>;

    open spec fn deep_view(&self) -> MaybeWorkspace<T::V> {
        match *self {
            MaybeWorkspace::Workspace => MaybeWorkspace::Workspace,
            MaybeWorkspace::Defined(ref t) => MaybeWorkspace::Defined(t.deep_view()),
        }
    }
}

/// What `string_or_default` returns, at the level of character sequences.
pub open spec fn string_or_default_spec(v: StringOrBoolView, default_value: Seq<char>) -> Option<
    Seq<char>,
> {
    match v {
        StringOrBoolView::Text(s) => Some(s),
        StringOrBoolView::Flag(b) => if b {
            Some(default_value)
        } else {
            None
        },
    }
}

impl StringOrBool {
    /// A written string is kept; `true` selects the given default name;
    /// `false` switches the field off.
    pub fn string_or_default(&self, default_value: &str) -> (r: Option<String>)
        ensures
            r.deep_view() == string_or_default_spec(self.deep_view(), default_value@),
    {
        match self {
            StringOrBool::Text(value) => Some(value.clone()),
            StringOrBool::Flag(true) => Some(default_value.to_owned()),
            StringOrBool::Flag(false) => None,
        }
    }
}


/// Copies a string-or-boolean field.
pub fn clone_string_or_bool(v: &StringOrBool) -> (r: StringOrBool)
    ensures
        r.deep_view() == v.deep_view(),
{
    match v {
        StringOrBool::Text(s) => StringOrBool::Text(s.clone()),
        StringOrBool::Flag(b) => StringOrBool::Flag(*b),
    }
}

/// Copies an optional string-or-boolean field.
pub fn clone_opt_string_or_bool(v: &Option<StringOrBool>) -> (r: Option<StringOrBool>)
    ensures
        r.deep_view() == v.deep_view(),
{
    match v {
        Some(x) => Some(clone_string_or_bool(x)),
        None => None,
    }
}

/// Copies a list-or-boolean field.
pub fn clone_vec_string_or_bool(v: &VecStringOrBool) -> (r: VecStringOrBool)
    ensures
        r.deep_view() == v.deep_view(),
{
    match v {
        VecStringOrBool::List(l) => VecStringOrBool::List(crate::strutil::clone_string_vec(l)),
        VecStringOrBool::Flag(b) => VecStringOrBool::Flag(*b),
    }
}

/// Copies an optional list-or-boolean field.
pub fn clone_opt_vec_string_or_bool(v: &Option<VecStringOrBool>) -> (r: Option<VecStringOrBool>)
    ensures
        r.deep_view() == v.deep_view(),
{
    match v {
        Some(x) => Some(clone_vec_string_or_bool(x)),
        None => None,
    }
}

} // verus!

verus! {

/// Copies a string-or-list field.
pub fn clone_string_or_vec(v: &StringOrVec) -> (r: StringOrVec)
    ensures
        r.deep_view() == v.deep_view(),
{
    StringOrVec(crate::strutil::clone_string_vec(&v.0))
}

/// Copies an optional string-or-list field.
pub fn clone_opt_string_or_vec(v: &Option<StringOrVec>) -> (r: Option<StringOrVec>)
    ensures
        r.deep_view() == v.deep_view(),
{
    match v {
        Some(x) => Some(clone_string_or_vec(x)),
        None => None,
    }
}

} // verus!
