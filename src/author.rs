//! Create embed authors.

use crate::image_source::ImageSource;
use twilight_model::channel::embed::EmbedAuthor;
use vstd::prelude::*;

verus! {

/// The author record of twilight_model, whose four public fields are all
/// `Option<String>`; the declaration lets contracts read those fields.
#[verifier::external_type_specification]
pub struct ExEmbedAuthor(EmbedAuthor);

/// Relies on the `Clone` that twilight_model derives for its author record:
/// each field is cloned, so the copy holds the same text.
pub assume_specification[ <EmbedAuthor as Clone>::clone ](a: &EmbedAuthor) -> (r: EmbedAuthor)
    ensures
        fields_of(r) == fields_of(*a),
;

/// What an author record holds, as text.
pub ghost struct AuthorFields {
    pub icon_url: Option<Seq<char>>,
    pub name: Option<Seq<char>>,
    pub proxy_icon_url: Option<Seq<char>>,
    pub url: Option<Seq<char>>,
}

/// One configuration call on an author builder.
pub ghost enum Setting {
    /// `icon_url`, with the URL of the image source.
    Icon(Seq<char>),
    /// `name`, with the name.
    Name(Seq<char>),
    /// `url`, with the link.
    Url(Seq<char>),
}

/// The text of an optional string.
pub open spec fn text_of(s: Option<String>) -> Option<Seq<char>> {
    match s {
        Some(t) => Some(t@),
        None => None,
    }
}

/// The fields of an author record, as text.
pub open spec fn fields_of(a: EmbedAuthor) -> AuthorFields {
    AuthorFields {
        icon_url: text_of(a.icon_url),
        name: text_of(a.name),
        proxy_icon_url: text_of(a.proxy_icon_url),
        url: text_of(a.url),
    }
}

/// The icon of the last icon setting in `ops`, if there is one.
pub open spec fn last_icon(ops: Seq<Setting>) -> Option<Seq<char>>
    decreases ops.len(),
{
    if ops.len() == 0 {
        None
    } else if let Setting::Icon(v) = ops.last() {
        Some(v)
    } else {
        last_icon(ops.drop_last())
    }
}

/// The name of the last name setting in `ops`, if there is one.
pub open spec fn last_name(ops: Seq<Setting>) -> Option<Seq<char>>
    decreases ops.len(),
{
    if ops.len() == 0 {
        None
    } else if let Setting::Name(v) = ops.last() {
        Some(v)
    } else {
        last_name(ops.drop_last())
    }
}

/// The url of the last url setting in `ops`, if there is one.
pub open spec fn last_url(ops: Seq<Setting>) -> Option<Seq<char>>
    decreases ops.len(),
{
    if ops.len() == 0 {
        None
    } else if let Setting::Url(v) = ops.last() {
        Some(v)
    } else {
        last_url(ops.drop_last())
    }
}

impl AuthorFields {
    /// The record with no attribute set.
    pub open spec fn absent() -> AuthorFields {
        AuthorFields { icon_url: None, name: None, proxy_icon_url: None, url: None }
    }

    /// The record after one configuration call: the field it sets is replaced,
    /// the others are kept.
    pub open spec fn apply(self, s: Setting) -> AuthorFields {
        match s {
            Setting::Icon(v) => AuthorFields { icon_url: Some(v), ..self },
            Setting::Name(v) => AuthorFields { name: Some(v), ..self },
            Setting::Url(v) => AuthorFields { url: Some(v), ..self },
        }
    }

    /// The record after the configuration calls `ops`, in order.
    pub open spec fn apply_all(self, ops: Seq<Setting>) -> AuthorFields
        decreases ops.len(),
    {
        if ops.len() == 0 {
            self
        } else {
            self.apply_all(ops.drop_last()).apply(ops.last())
        }
    }
}

/// Create an embed author with a builder.
#[derive(Debug, Eq, PartialEq)]
pub struct EmbedAuthorBuilder(EmbedAuthor);

impl View for EmbedAuthorBuilder {
    type V = AuthorFields;

    closed spec fn view(&self) -> AuthorFields {
        fields_of(self.0)
    }
}

impl EmbedAuthorBuilder {
    /// The builder never sets the proxied icon URL: only the remote service fills it.
    #[verifier::type_invariant]
    closed spec fn no_proxy_icon(self) -> bool {
        self.0.proxy_icon_url is None
    }

    /// Create a new default embed author builder.
    pub fn new() -> (r: Self)
        ensures
            r@ == AuthorFields::absent(),
    {
        Self::default()
    }

    /// Build into an embed author.
    pub fn build(self) -> (r: EmbedAuthor)
        ensures
            fields_of(r) == self@,
            r.proxy_icon_url is None,
    {
        proof {
            use_type_invariant(&self);
        }
        self.0
    }

    /// Add an author icon.
    pub fn icon_url(self, image_source: ImageSource) -> (r: Self)
        ensures
            r@ == self@.apply(Setting::Icon(image_source@)),
    {
        proof {
            use_type_invariant(&self);
        }
        let mut author = self.0;
        author.icon_url = Some(image_source.into_url());
        EmbedAuthorBuilder(author)
    }

    /// The author's name.
    ///
    /// The name is not checked here: the embed that takes the author holds it
    /// to a maximum length and refuses an empty one.
    pub fn name(self, name: &str) -> (r: Self)
        ensures
            r@ == self@.apply(Setting::Name(name@)),
    {
        self._name(name.to_owned())
    }

    fn _name(self, name: String) -> (r: Self)
        ensures
            r@ == self@.apply(Setting::Name(name@)),
    {
        proof {
            use_type_invariant(&self);
        }
        let mut author = self.0;
        author.name = Some(name);
        EmbedAuthorBuilder(author)
    }

    /// The author's url.
    pub fn url(self, url: &str) -> (r: Self)
        ensures
            r@ == self@.apply(Setting::Url(url@)),
    {
        self._url(url.to_owned())
    }

    fn _url(self, url: String) -> (r: Self)
        ensures
            r@ == self@.apply(Setting::Url(url@)),
    {
        proof {
            use_type_invariant(&self);
        }
        let mut author = self.0;
        author.url = Some(url);
        EmbedAuthorBuilder(author)
    }
}

impl Clone for EmbedAuthorBuilder {
    fn clone(&self) -> (r: Self)
        ensures
            r@ == self@,
    {
        proof {
            use_type_invariant(self);
        }
        EmbedAuthorBuilder(self.0.clone())
    }
}

impl Default for EmbedAuthorBuilder {
    fn default() -> (r: Self)
        ensures
            r@ == AuthorFields::absent(),
    {
        EmbedAuthorBuilder(EmbedAuthor { icon_url: None, name: None, proxy_icon_url: None, url: None })
    }
}

impl From<EmbedAuthorBuilder> for EmbedAuthor {
    /// Convert an embed author builder into an embed author, as
    /// [`EmbedAuthorBuilder::build`] does.
    fn from(builder: EmbedAuthorBuilder) -> (r: Self)
        ensures
            fields_of(r) == builder@,
            r.proxy_icon_url is None,
    {
        proof {
            use_type_invariant(&builder);
        }
        builder.0
    }
}

impl vstd::std_specs::convert::FromSpecImpl<EmbedAuthorBuilder> for EmbedAuthor {
    open spec fn obeys_from_spec() -> bool {
        true
    }

    closed spec fn from_spec(builder: EmbedAuthorBuilder) -> EmbedAuthor {
        builder.0
    }
}

/// A fresh builder builds a record with every field absent.
pub proof fn lemma_fresh_build_is_absent(b: EmbedAuthorBuilder, r: EmbedAuthor)
    requires
        call_ensures(EmbedAuthorBuilder::new, (), b),
        call_ensures(EmbedAuthorBuilder::build, (b,), r),
    ensures
        r.icon_url is None,
        r.name is None,
        r.proxy_icon_url is None,
        r.url is None,
{
}

/// `new` and `default` give builders that hold the same, and records built
/// from them are equal.
pub proof fn lemma_new_agrees_with_default(
    a: EmbedAuthorBuilder,
    b: EmbedAuthorBuilder,
    ra: EmbedAuthor,
    rb: EmbedAuthor,
)
    requires
        call_ensures(EmbedAuthorBuilder::new, (), a),
        call_ensures(<EmbedAuthorBuilder as Default>::default, (), b),
        call_ensures(EmbedAuthorBuilder::build, (a,), ra),
        call_ensures(EmbedAuthorBuilder::build, (b,), rb),
    ensures
        a@ == b@,
        ra == rb,
{
}

/// Last write wins: after any sequence of configuration calls on a fresh
/// builder, each field of the built record holds the value of the last call
/// that set it, and a field that no call set is absent.
pub proof fn lemma_last_write_wins(ops: Seq<Setting>, b: EmbedAuthorBuilder, r: EmbedAuthor)
    requires
        b@ == AuthorFields::absent().apply_all(ops),
        call_ensures(EmbedAuthorBuilder::build, (b,), r),
    ensures
        fields_of(r) == (AuthorFields {
            icon_url: last_icon(ops),
            name: last_name(ops),
            proxy_icon_url: None,
            url: last_url(ops),
        }),
{
    lemma_apply_all_keeps_last(ops);
}

/// The fields after `ops`, applied to a builder with nothing set, are the
/// last values that `ops` gives.
proof fn lemma_apply_all_keeps_last(ops: Seq<Setting>)
    ensures
        AuthorFields::absent().apply_all(ops) == (AuthorFields {
            icon_url: last_icon(ops),
            name: last_name(ops),
            proxy_icon_url: None,
            url: last_url(ops),
        }),
    decreases ops.len(),
{
    if ops.len() > 0 {
        lemma_apply_all_keeps_last(ops.drop_last());
    }
}

/// Whatever configuration calls were made, a built record has no proxied
/// icon URL.
pub proof fn lemma_proxy_icon_never_set(b: EmbedAuthorBuilder, r: EmbedAuthor)
    requires
        call_ensures(EmbedAuthorBuilder::build, (b,), r),
    ensures
        r.proxy_icon_url is None,
{
}

} // verus!
