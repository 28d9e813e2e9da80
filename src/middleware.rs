use vstd::prelude::*;

use crate::engine::{template_names, template_set};
use crate::matching::{last_match, name_set, select_template};
use crate::resolve::{
    candidates, normalize_prefix, normalized_prefix, resolve, trim_end_slashes,
    trim_end_slashes_of, trim_start_slashes,
};

verus! {

/// What the middleware does with a request.
pub enum Action {
    /// Hand the request to the wrapped service and return its response as it is.
    Delegate,
    /// Build a context for the request and render the named template.
    Render(String),
}

impl View for Action {
    /// The template to render, or `None` for a request that is passed on.
    type V = Option<Seq<char>>;

    open spec fn view(&self) -> Option<Seq<char>> {
        match self {
            Action::Delegate => None,
            Action::Render(name) => Some(name@),
        }
    }
}

/// The template that a request is answered with, or `None` when it goes to the
/// wrapped service: only a GET is looked at, its path loses its trailing `/`,
/// and the last registered candidate wins.
pub open spec fn plan(
    is_get: bool,
    path: Seq<char>,
    prefix: Seq<char>,
    registered: Set<Seq<char>>,
) -> Option<Seq<char>> {
    if !is_get {
        None
    } else {
        last_match(candidates(trim_end_slashes(path), prefix), registered)
    }
}

/// A prefix with no `/` at either end.
pub open spec fn is_trimmed(s: Seq<char>) -> bool {
    s.len() == 0 || (s[0] != '/' && s.last() != '/')
}

proof fn lemma_trim_start_trimmed(s: Seq<char>)
    ensures
        trim_start_slashes(s).len() == 0 || trim_start_slashes(s)[0] != '/',
    decreases s.len(),
{
    if s.len() > 0 && s[0] == '/' {
        lemma_trim_start_trimmed(s.drop_first());
    }
}

proof fn lemma_trim_end_keeps_front(s: Seq<char>)
    ensures
        trim_end_slashes(s).len() <= s.len(),
        trim_end_slashes(s) =~= s.subrange(0, trim_end_slashes(s).len() as int),
        trim_end_slashes(s).len() == 0 || trim_end_slashes(s).last() != '/',
    decreases s.len(),
{
    if s.len() > 0 && s.last() == '/' {
        lemma_trim_end_keeps_front(s.drop_last());
    }
}

/// A normalized prefix has no `/` at either end.
pub proof fn lemma_normalized_prefix_trimmed(s: Seq<char>)
    ensures
        is_trimmed(normalized_prefix(s)),
{
    let front = trim_start_slashes(s);
    lemma_trim_start_trimmed(s);
    lemma_trim_end_keeps_front(front);
    let r = trim_end_slashes(front);
    if r.len() > 0 {
        assert(r[0] == front[0]);
    }
}

/// A request whose method is not GET is always passed on, whatever templates
/// are registered.
pub proof fn non_get_is_delegated(path: Seq<char>, prefix: Seq<char>, registered: Set<Seq<char>>)
    ensures
        plan(false, path, prefix, registered) == None::<Seq<char>>,
{
}

/// When both the file and the directory-index candidate of a non-empty path
/// are registered, the directory index is rendered.
pub proof fn directory_index_wins(path: Seq<char>, prefix: Seq<char>, registered: Set<Seq<char>>)
    requires
        trim_end_slashes(path).len() > 0,
        registered.contains(prefix + trim_end_slashes(path) + ".html"@),
        registered.contains(prefix + trim_end_slashes(path) + "/index.html"@),
    ensures
        plan(true, path, prefix, registered) == Some(
            prefix + trim_end_slashes(path) + "/index.html"@,
        ),
{
    let c = candidates(trim_end_slashes(path), prefix);
    assert(c.last() == prefix + trim_end_slashes(path) + "/index.html"@);
}

/// A GET whose file candidate alone is registered renders that file.
pub proof fn file_template_rendered(path: Seq<char>, prefix: Seq<char>, registered: Set<Seq<char>>)
    requires
        trim_end_slashes(path).len() > 0,
        registered.contains(prefix + trim_end_slashes(path) + ".html"@),
        !registered.contains(prefix + trim_end_slashes(path) + "/index.html"@),
    ensures
        plan(true, path, prefix, registered) == Some(prefix + trim_end_slashes(path) + ".html"@),
{
    let c = candidates(trim_end_slashes(path), prefix);
    let first = c.drop_last();
    assert(first =~= seq![prefix + trim_end_slashes(path) + ".html"@]);
    assert(last_match(first, registered) == Some(first.last()));
    assert(last_match(c, registered) == last_match(first, registered));
}

/// A GET for which no candidate is registered is passed on.
pub proof fn unmatched_get_is_delegated(
    path: Seq<char>,
    prefix: Seq<char>,
    registered: Set<Seq<char>>,
)
    requires
        forall|i: int|
            0 <= i < candidates(trim_end_slashes(path), prefix).len() ==> !registered.contains(
                #[trigger] candidates(trim_end_slashes(path), prefix)[i],
            ),
    ensures
        plan(true, path, prefix, registered) == None::<Seq<char>>,
{
    let c = candidates(trim_end_slashes(path), prefix);
    assert(!registered.contains(c[c.len() - 1]));
    let first = c.drop_last();
    if c.len() == 2 {
        assert(!registered.contains(c[0]));
        assert(first.last() == c[0]);
        assert(last_match(first.drop_last(), registered) == None::<Seq<char>>);
        assert(last_match(first, registered) == None::<Seq<char>>);
    } else {
        assert(last_match(first, registered) == None::<Seq<char>>);
    }
    assert(last_match(c, registered) == last_match(first, registered));
}

/// A GET for the site root renders `{prefix}/index.html` when it is registered.
pub proof fn root_renders_index(path: Seq<char>, prefix: Seq<char>, registered: Set<Seq<char>>)
    requires
        trim_end_slashes(path).len() == 0,
        registered.contains(prefix + "/index.html"@),
    ensures
        plan(true, path, prefix, registered) == Some(prefix + "/index.html"@),
{
}

/// Holds the configuration of the middleware: the template prefix as given and
/// the function that builds a rendering context for a request.
pub struct TeraPage<C> {
    context_builder: C,
    template_prefix: String,
}

impl<C> TeraPage<C> {
    /// The prefix as it was given.
    pub closed spec fn prefix(&self) -> Seq<char> {
        self.template_prefix@
    }

    /// The context builder.
    pub closed spec fn builder(&self) -> C {
        self.context_builder
    }

    /// Creates the configuration from a template search prefix and a function
    /// that builds the context.
    pub fn new(template_prefix: &str, context_builder: C) -> (r: Self)
        ensures
            r.prefix() == template_prefix@,
            r.builder() == context_builder,
    {
        TeraPage { context_builder, template_prefix: template_prefix.to_owned() }
    }

    /// Wraps `service`: the middleware keeps the prefix without `/` at its ends.
    pub fn new_transform<S>(&self, service: S) -> (m: TeraPageMiddleware<S, C>) where C: Copy
        ensures
            m.wf(),
            m.prefix() == normalized_prefix(self.prefix()),
            m.builder() == self.builder(),
            m.inner() == service,
    {
        proof {
            lemma_normalized_prefix_trimmed(self.prefix());
        }
        TeraPageMiddleware {
            service,
            context_builder: self.context_builder,
            template_prefix: normalize_prefix(self.template_prefix.as_str()),
        }
    }
}

/// The middleware around one service.
pub struct TeraPageMiddleware<S, C> {
    service: S,
    context_builder: C,
    template_prefix: String,
}

impl<S, C> TeraPageMiddleware<S, C> {
    /// The normalized template prefix.
    pub closed spec fn prefix(&self) -> Seq<char> {
        self.template_prefix@
    }

    /// The context builder.
    pub closed spec fn builder(&self) -> C {
        self.context_builder
    }

    /// The wrapped service.
    pub closed spec fn inner(&self) -> S {
        self.service
    }

    /// The prefix has no `/` at either end.
    pub open spec fn wf(&self) -> bool {
        is_trimmed(self.prefix())
    }

    /// The wrapped service, to which requests are delegated.
    pub fn service(&self) -> (r: &S)
        ensures
            *r == self.inner(),
    {
        &self.service
    }

    /// The function that builds a context for an intercepted request.
    pub fn context_builder(&self) -> (r: &C)
        ensures
            *r == self.builder(),
    {
        &self.context_builder
    }

    /// The normalized template prefix.
    pub fn template_prefix(&self) -> (r: &str)
        ensures
            r@ == self.prefix(),
    {
        self.template_prefix.as_str()
    }

    /// Decides a request from its method, its path and the registered template
    /// names.
    pub fn route(&self, is_get: bool, path: &str, registered: &Vec<String>) -> (a: Action)
        ensures
            a@ == plan(is_get, path@, self.prefix(), name_set(registered.deep_view())),
    {
        if !is_get {
            return Action::Delegate;
        }
        let trimmed = trim_end_slashes_of(path);
        let cands = resolve(trimmed.as_str(), self.template_prefix.as_str());
        match select_template(&cands, registered) {
            Some(name) => Action::Render(name),
            None => Action::Delegate,
        }
    }

    /// Decides a request against the templates that `engine` holds; the engine
    /// is only asked for a GET.
    pub fn route_with_engine(&self, is_get: bool, path: &str, engine: &tera::Tera) -> (a: Action)
        ensures
            a@ == plan(is_get, path@, self.prefix(), template_set(*engine)),
    {
        if !is_get {
            return Action::Delegate;
        }
        let registered = template_names(engine);
        self.route(is_get, path, &registered)
    }
}

} // verus!
