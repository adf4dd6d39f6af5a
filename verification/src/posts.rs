//! What a new post must hold before it is stored, and what its author is
//! told when it does not.

use crate::str_map::{texts_of, StrMap};
use crate::text::lowercase_of;
use vstd::prelude::*;
use vstd::string::{to_string_from_display_ensures, StringExecFns};

verus! {

/// A text that is known not to be empty.
#[derive(Debug)]
pub struct NonEmpty(String);

impl Clone for NonEmpty {
    fn clone(&self) -> (copy: NonEmpty)
        ensures
            copy@ == self@,
    {
        proof {
            use_type_invariant(self);
        }
        NonEmpty(self.0.clone())
    }
}

impl View for NonEmpty {
    type V = Seq<char>;

    closed spec fn view(&self) -> Seq<char> {
        self.0@
    }
}

impl NonEmpty {
    #[verifier::type_invariant]
    spec fn inv(self) -> bool {
        self.0@.len() > 0
    }

    /// The value of a form field as a text that is not empty. An empty value
    /// is refused, with the reason.
    pub fn from_form_value(form_value: &str) -> (read: Result<NonEmpty, &'static str>)
        ensures
            match read {
                Ok(text) => form_value@.len() > 0 && text@ == form_value@,
                Err(reason) => form_value@.len() == 0 && reason@ == "can't be empty"@,
            },
    {
        if form_value.is_empty() {
            Err("can't be empty")
        } else {
            Ok(NonEmpty(form_value.to_owned()))
        }
    }

    /// The text itself.
    pub fn into_inner(self) -> (text: String)
        ensures
            text@ == self@,
            text@.len() > 0,
    {
        proof {
            use_type_invariant(&self);
        }
        self.0
    }
}

/// Whether a character is white space: a character with the Unicode property
/// `White_Space`.
pub open spec fn is_white_space(c: char) -> bool {
    let code = c as u32;
    ||| 0x09 <= code <= 0x0d
    ||| code == 0x20
    ||| code == 0x85
    ||| code == 0xa0
    ||| code == 0x1680
    ||| 0x2000 <= code <= 0x200a
    ||| code == 0x2028
    ||| code == 0x2029
    ||| code == 0x202f
    ||| code == 0x205f
    ||| code == 0x3000
}

/// Whether a character is white space.
pub fn white_space(c: char) -> (space: bool)
    ensures
        space == is_white_space(c),
{
    let code: u32 = c as u32;
    (0x09 <= code && code <= 0x0d) || code == 0x20 || code == 0x85 || code == 0xa0 || code
        == 0x1680 || (0x2000 <= code && code <= 0x200a) || code == 0x2028 || code == 0x2029
        || code == 0x202f || code == 0x205f || code == 0x3000
}

/// The character that stands in a slug for `c`: a dash for white space.
pub open spec fn dashed(c: char) -> char {
    if is_white_space(c) {
        '-'
    } else {
        c
    }
}

/// Whether a character may stand in a slug.
pub open spec fn kept(c: char) -> bool {
    c != '#' && c != '/'
}

/// A text with a dash for every character of white space, and without `#`
/// and `/`.
pub open spec fn dashes_of(text: Seq<char>) -> Seq<char> {
    text.map_values(|c: char| dashed(c)).filter(|c: char| kept(c))
}

/// The slug of a title: the title in lower case, with a dash for every
/// character of white space, and without `#` and `/`.
pub open spec fn slug_of(title: Seq<char>) -> Seq<char> {
    dashes_of(lowercase_of(title))
}

/// A text with a dash for every character of white space, and without `#`
/// and `/`.
pub fn with_dashes(text: &str) -> (dashes: String)
    ensures
        dashes@ == dashes_of(text@),
{
    let mut dashes = String::new();
    let ghost all = text@;
    let ghost to_dash = |c: char| dashed(c);
    let ghost keep = |c: char| kept(c);
    proof {
        Seq::<char>::empty().lemma_filter_len(keep);
    }
    for c in it: text.chars()
        invariant
            it.seq() == all,
            to_dash == |c: char| dashed(c),
            keep == |c: char| kept(c),
            dashes@ == all.take(it.index() as int).map_values(to_dash).filter(keep),
    {
        let d: char = if white_space(c) {
            '-'
        } else {
            c
        };
        proof {
            let seen = all.take(it.index() as int);
            assert(all.take(it.index() + 1) =~= seen.push(c));
            assert(seen.push(c).map_values(to_dash) =~= seen.map_values(to_dash).push(d));
            seen.map_values(to_dash).lemma_filter_push(d, keep);
        }
        if d != '#' && d != '/' {
            dashes.push(d);
        }
    }
    assert(all.take(all.len() as int) =~= all);
    dashes
}

/// The slug of a title, for the url of its post.
pub fn slug(title: &str) -> (slug: String)
    ensures
        slug@ == slug_of(title@),
{
    with_dashes(title.to_lowercase().as_str())
}

/// The HTML that `pulldown_cmark` writes for a markdown text, with tables and
/// footnotes switched on or off.
pub uninterp spec fn markdown_html(markdown: Seq<char>, tables: bool, footnotes: bool) -> Seq<char>;

/// Runs `pulldown_cmark::Parser::new_ext` over `markdown`, with the two
/// options as given and every other option off, and collects what
/// `pulldown_cmark::html::push_html` writes for it. Believed, not proved: the
/// result is the named one; it depends on the three arguments alone.
#[verifier::external_body]
fn render_markdown(markdown: &str, tables: bool, footnotes: bool) -> (html: String)
    ensures
        html@ == markdown_html(markdown@, tables, footnotes),
{
    let mut options = pulldown_cmark::Options::empty();
    options.set(pulldown_cmark::Options::ENABLE_TABLES, tables);
    options.set(pulldown_cmark::Options::ENABLE_FOOTNOTES, footnotes);
    let mut html = String::new();
    pulldown_cmark::html::push_html(&mut html, pulldown_cmark::Parser::new_ext(markdown, options));
    html
}

/// The body of a post as HTML: its markdown, read with tables and footnotes.
pub fn parse_markdown(md: &str) -> (html: String)
    ensures
        html@ == markdown_html(md@, true, true),
{
    render_markdown(md, true, true)
}

/// Where the posts of the site are found.
pub open spec fn base_url() -> Seq<char> {
    "/post"@
}

/// The url of the post with the given slug.
pub fn post_url(slug: &str) -> (url: String)
    ensures
        url@ == base_url() + seq!['/'] + slug@,
{
    proof {
        reveal_strlit("/");
    }
    "/post".to_owned().concat("/").concat(slug)
}

/// The short url of the post with the given number: the number follows the
/// base as `i32` writes itself.
pub fn post_short_url(id: i32) -> (url: String)
    ensures
        exists|number: String|
            to_string_from_display_ensures::<i32>(&id, number) && url@ == base_url() + seq!['/']
                + number@,
{
    proof {
        reveal_strlit("/");
    }
    let number = id.to_string();
    "/post".to_owned().concat("/").concat(number.as_str())
}

/// A post as its author filled it in: each field is a text that is not
/// empty, or the reason why it was refused.
#[derive(Debug)]
pub struct NewPost {
    pub title: Result<NonEmpty, &'static str>,
    pub author: Result<NonEmpty, &'static str>,
    pub body: Result<NonEmpty, &'static str>,
}

/// A post that can be stored.
#[derive(Clone, Debug, PartialEq, Eq)]
pub struct NewDbPost {
    pub title: String,
    pub slug: String,
    pub author: String,
    pub body: String,
}

/// What the author is told of a field that was refused: the label of the
/// field, the reason, and a full stop.
pub open spec fn field_message(label: Seq<char>, reason: Seq<char>) -> Seq<char> {
    label + seq![' '] + reason + seq!['.']
}

/// The messages with one more for `field`, if it was refused.
pub open spec fn with_field_error(
    errors: Map<Seq<char>, Seq<char>>,
    key: Seq<char>,
    label: Seq<char>,
    field: Result<NonEmpty, &'static str>,
) -> Map<Seq<char>, Seq<char>> {
    match field {
        Ok(_) => errors,
        Err(reason) => errors.insert(key, field_message(label, reason@)),
    }
}

/// The messages for the fields of a post that were refused, each under the
/// name of its field.
pub open spec fn errors_of(post: NewPost) -> Map<Seq<char>, Seq<char>> {
    with_field_error(
        with_field_error(
            with_field_error(Map::empty(), "title"@, "Title"@, post.title),
            "author"@,
            "Author"@,
            post.author,
        ),
        "body"@,
        "Body"@,
        post.body,
    )
}

/// Whether no field of the post was refused.
pub open spec fn is_complete(post: NewPost) -> bool {
    post.title is Ok && post.author is Ok && post.body is Ok
}

/// The text of a field, empty where the field was refused.
pub open spec fn field_text(field: Result<NonEmpty, &'static str>) -> Seq<char> {
    match field {
        Ok(text) => text@,
        Err(_) => Seq::empty(),
    }
}

/// Notes the message for `field` among `errors`, if the field was refused.
fn note_field_error(
    errors: &mut StrMap<String>,
    key: &str,
    label: &str,
    field: &Result<NonEmpty, &'static str>,
)
    ensures
        texts_of(final(errors)@) == with_field_error(texts_of(old(errors)@), key@, label@, *field),
{
    if let Err(reason) = field {
        proof {
            reveal_strlit(" ");
            reveal_strlit(".");
            assert(" "@ =~= seq![' ']);
            assert("."@ =~= seq!['.']);
        }
        let message = label.to_owned().concat(" ").concat(reason).concat(".");
        errors.insert(key.to_owned(), message);
    }
}

/// A copy of the text of a field, empty where the field was refused.
fn field_string(field: &Result<NonEmpty, &'static str>) -> (text: String)
    ensures
        text@ == field_text(*field),
{
    match field {
        Ok(text) => text.0.clone(),
        Err(_) => String::new(),
    }
}

impl NewPost {
    /// The messages for the fields that were refused. There is none exactly
    /// when no field was refused.
    pub fn errors(&self) -> (errors: StrMap<String>)
        ensures
            texts_of(errors@) == errors_of(*self),
            errors@.dom() == errors_of(*self).dom(),
            is_complete(*self) <==> errors@ == Map::<Seq<char>, String>::empty(),
    {
        let mut errors: StrMap<String> = StrMap::new();
        note_field_error(&mut errors, "title", "Title", &self.title);
        note_field_error(&mut errors, "author", "Author", &self.author);
        note_field_error(&mut errors, "body", "Body", &self.body);
        proof {
            assert(texts_of(errors@).dom() =~= errors@.dom());
            if is_complete(*self) {
                assert(errors@ =~= Map::<Seq<char>, String>::empty());
            } else {
                lemma_incomplete_has_errors(*self);
            }
        }
        errors
    }

    /// The post as it can be stored, with the slug of its title, if no field
    /// was refused; else the messages for the fields that were.
    pub fn validate(&self) -> (checked: Result<NewDbPost, StrMap<String>>)
        ensures
            match checked {
                Ok(post) => {
                    &&& is_complete(*self)
                    &&& post.title@ == field_text(self.title)
                    &&& post.slug@ == slug_of(field_text(self.title))
                    &&& post.author@ == field_text(self.author)
                    &&& post.body@ == field_text(self.body)
                },
                Err(errors) => !is_complete(*self) && texts_of(errors@) == errors_of(*self),
            },
    {
        let errors = self.errors();
        if errors.is_empty() {
            let title = field_string(&self.title);
            Ok(
                NewDbPost {
                    slug: slug(title.as_str()),
                    title,
                    author: field_string(&self.author),
                    body: field_string(&self.body),
                },
            )
        } else {
            Err(errors)
        }
    }
}

/// A post of which a field was refused has a message.
pub proof fn lemma_incomplete_has_errors(post: NewPost)
    requires
        !is_complete(post),
    ensures
        errors_of(post).dom() != Set::<Seq<char>>::empty(),
{
    if post.body is Err {
        assert(errors_of(post).dom().contains("body"@));
    } else if post.author is Err {
        assert(errors_of(post).dom().contains("author"@));
    } else {
        assert(errors_of(post).dom().contains("title"@));
    }
}

/// The name under which a failure that is no field's fault is reported.
pub open spec fn general_key() -> Seq<char> {
    "general"@
}

/// What the author is told when a post could not be stored.
pub open spec fn general_message() -> Seq<char> {
    "Error saving your post. Please try again later."@
}

/// Whether storing a post changed as many rows as it must: one at least.
pub fn rows_inserted(num_inserted: usize) -> (checked: Result<(), String>)
    ensures
        match checked {
            Ok(_) => num_inserted >= 1,
            Err(reason) => num_inserted < 1 && reason@ == "nothing inserted"@,
        },
{
    if num_inserted < 1 {
        Err("nothing inserted".to_owned())
    } else {
        Ok(())
    }
}

/// What the author gets once the store has answered: the stored post, or one
/// general message, whatever the store said went wrong.
pub fn insert_outcome<P>(stored: Result<P, String>) -> (outcome: Result<P, StrMap<String>>)
    ensures
        match outcome {
            Ok(post) => stored == Ok::<P, String>(post),
            Err(errors) => stored is Err && texts_of(errors@) == Map::<
                Seq<char>,
                Seq<char>,
            >::empty().insert(general_key(), general_message()),
        },
{
    match stored {
        Ok(post) => Ok(post),
        Err(_) => {
            let mut errors: StrMap<String> = StrMap::new();
            errors.insert(
                "general".to_owned(),
                "Error saving your post. Please try again later.".to_owned(),
            );
            assert(texts_of(errors@) =~= Map::<Seq<char>, Seq<char>>::empty().insert(
                general_key(),
                general_message(),
            ));
            Err(errors)
        },
    }
}

/// What the form for a new post shows.
pub struct NewPostFormView {
    pub errors: Map<Seq<char>, Seq<char>>,
    pub title: Seq<char>,
    pub author: Seq<char>,
    pub body: Seq<char>,
}

/// The form for a new post: what its author filled in, and the messages for
/// what was refused.
#[derive(Clone, Debug, PartialEq, Eq)]
pub struct NewPostForm {
    errors: StrMap<String>,
    title: String,
    author: String,
    body: String,
}

impl View for NewPostForm {
    type V = NewPostFormView;

    closed spec fn view(&self) -> NewPostFormView {
        NewPostFormView {
            errors: texts_of(self.errors@),
            title: self.title@,
            author: self.author@,
            body: self.body@,
        }
    }
}

impl NewPostForm {
    /// The form that shows `post` again with `errors`: a field that was
    /// refused is shown empty.
    pub fn with_errors(post: NewPost, errors: StrMap<String>) -> (form: NewPostForm)
        ensures
            form@ == (NewPostFormView {
                errors: texts_of(errors@),
                title: field_text(post.title),
                author: field_text(post.author),
                body: field_text(post.body),
            }),
    {
        NewPostForm {
            errors,
            title: field_string(&post.title),
            author: field_string(&post.author),
            body: field_string(&post.body),
        }
    }

    /// The messages, each under the name of its field.
    pub fn errors(&self) -> (errors: &StrMap<String>)
        ensures
            texts_of(errors@) == self@.errors,
    {
        &self.errors
    }

    /// The title as it is shown.
    pub fn title(&self) -> (title: &str)
        ensures
            title@ == self@.title,
    {
        self.title.as_str()
    }

    /// The author as it is shown.
    pub fn author(&self) -> (author: &str)
        ensures
            author@ == self@.author,
    {
        self.author.as_str()
    }

    /// The body as it is shown.
    pub fn body(&self) -> (body: &str)
        ensures
            body@ == self@.body,
    {
        self.body.as_str()
    }
}

impl Default for NewPostForm {
    fn default() -> (form: NewPostForm)
        ensures
            form@ == (NewPostFormView {
                errors: Map::empty(),
                title: Seq::empty(),
                author: Seq::empty(),
                body: Seq::empty(),
            }),
    {
        let form = NewPostForm {
            errors: StrMap::new(),
            title: String::new(),
            author: String::new(),
            body: String::new(),
        };
        assert(texts_of(form.errors@) =~= Map::empty());
        form
    }
}

} // verus!
