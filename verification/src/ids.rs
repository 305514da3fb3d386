use std::sync::Arc;

use vstd::prelude::*;

verus! {

/// The id of the provider that serves Zed's hosted models.
pub const ZED_CLOUD_PROVIDER_ID: &'static str = "zed.dev";

/// Identifies one use of a tool within a completion.
#[derive(Debug, PartialEq, Eq, Hash)]
pub struct LanguageModelToolUseId(Arc<str>);

impl Clone for LanguageModelToolUseId {
    fn clone(&self) -> (copy: Self)
        ensures
            copy == *self,
    {
        LanguageModelToolUseId(self.0.clone())
    }
}

impl LanguageModelToolUseId {
    /// The id with `text` as its text.
    pub closed spec fn of(text: Arc<str>) -> Self {
        LanguageModelToolUseId(text)
    }

    /// The text that the id holds.
    pub closed spec fn inner(&self) -> Arc<str> {
        self.0
    }

    /// The characters of the id.
    pub open spec fn text(&self) -> Seq<char> {
        self.inner()@
    }

    /// The text of the id.
    pub fn to_string(&self) -> (text: String)
        ensures
            text@ == self.text(),
            text@ == self.inner()@,
    {
        (&*self.0).to_string()
    }
}

impl<T: Into<Arc<str>>> From<T> for LanguageModelToolUseId {
    /// The id holds what `value` converts into.
    fn from(value: T) -> (id: Self)
        ensures
            call_ensures(<T as Into<Arc<str>>>::into, (value,), id.inner()),
    {
        LanguageModelToolUseId(value.into())
    }
}

impl<T: Into<Arc<str>>> vstd::std_specs::convert::FromSpecImpl<T> for LanguageModelToolUseId {
    open spec fn obeys_from_spec() -> bool {
        <T as vstd::std_specs::convert::IntoSpec<Arc<str>>>::obeys_into_spec()
    }

    open spec fn from_spec(value: T) -> Self {
        LanguageModelToolUseId::of(
            <T as vstd::std_specs::convert::IntoSpec<Arc<str>>>::into_spec(value),
        )
    }
}

/// An id is made of the text that it holds, and of nothing else: ids that hold the same text are
/// the same.
pub proof fn lemma_tool_use_id_is_its_text(a: LanguageModelToolUseId, b: LanguageModelToolUseId)
    ensures
        LanguageModelToolUseId::of(a.inner()) == a,
        a.inner() == b.inner() ==> a == b,
        a.text() == a.inner()@,
{
}

/// An id holds the text that it was made of.
pub proof fn lemma_tool_use_id_holds_its_text(text: Arc<str>)
    ensures
        LanguageModelToolUseId::of(text).inner() == text,
        LanguageModelToolUseId::of(text).text() == text@,
{
}

/// Identifies a model.
#[derive(Clone, Eq, PartialEq, Hash, Debug, Ord, PartialOrd)]
pub struct LanguageModelId(pub String);

/// The name of a model, for people to read.
#[derive(Clone, Eq, PartialEq, Hash, Debug, Ord, PartialOrd)]
pub struct LanguageModelName(pub String);

/// Identifies a provider of models.
#[derive(Clone, Eq, PartialEq, Hash, Debug, Ord, PartialOrd)]
pub struct LanguageModelProviderId(pub String);

/// The name of a provider of models, for people to read.
#[derive(Clone, Eq, PartialEq, Hash, Debug, Ord, PartialOrd)]
pub struct LanguageModelProviderName(pub String);

impl LanguageModelProviderId {
    /// The text of the id.
    pub fn to_string(&self) -> (text: String)
        ensures
            text == self.0,
    {
        self.0.clone()
    }
}

impl From<String> for LanguageModelId {
    fn from(value: String) -> (id: Self)
        ensures
            id.0 == value,
    {
        LanguageModelId(value)
    }
}

impl vstd::std_specs::convert::FromSpecImpl<String> for LanguageModelId {
    open spec fn obeys_from_spec() -> bool {
        true
    }

    open spec fn from_spec(value: String) -> Self {
        LanguageModelId(value)
    }
}

impl From<String> for LanguageModelName {
    fn from(value: String) -> (name: Self)
        ensures
            name.0 == value,
    {
        LanguageModelName(value)
    }
}

impl vstd::std_specs::convert::FromSpecImpl<String> for LanguageModelName {
    open spec fn obeys_from_spec() -> bool {
        true
    }

    open spec fn from_spec(value: String) -> Self {
        LanguageModelName(value)
    }
}

impl From<String> for LanguageModelProviderId {
    fn from(value: String) -> (id: Self)
        ensures
            id.0 == value,
    {
        LanguageModelProviderId(value)
    }
}

impl vstd::std_specs::convert::FromSpecImpl<String> for LanguageModelProviderId {
    open spec fn obeys_from_spec() -> bool {
        true
    }

    open spec fn from_spec(value: String) -> Self {
        LanguageModelProviderId(value)
    }
}

impl From<String> for LanguageModelProviderName {
    fn from(value: String) -> (name: Self)
        ensures
            name.0 == value,
    {
        LanguageModelProviderName(value)
    }
}

impl vstd::std_specs::convert::FromSpecImpl<String> for LanguageModelProviderName {
    open spec fn obeys_from_spec() -> bool {
        true
    }

    open spec fn from_spec(value: String) -> Self {
        LanguageModelProviderName(value)
    }
}

/// Ids and names are made of a text and keep it as it is.
pub proof fn lemma_ids_and_names_keep_their_text(text: String)
    ensures
        <LanguageModelId as vstd::std_specs::convert::FromSpec<String>>::obeys_from_spec(),
        <LanguageModelId as vstd::std_specs::convert::FromSpec<String>>::from_spec(text).0 == text,
        <LanguageModelName as vstd::std_specs::convert::FromSpec<String>>::obeys_from_spec(),
        <LanguageModelName as vstd::std_specs::convert::FromSpec<String>>::from_spec(text).0 == text,
        <LanguageModelProviderId as vstd::std_specs::convert::FromSpec<String>>::obeys_from_spec(),
        <LanguageModelProviderId as vstd::std_specs::convert::FromSpec<String>>::from_spec(text).0 == text,
        <LanguageModelProviderName as vstd::std_specs::convert::FromSpec<String>>::obeys_from_spec(),
        <LanguageModelProviderName as vstd::std_specs::convert::FromSpec<String>>::from_spec(text).0 == text,
{
}

} // verus!
