use vstd::prelude::*;
use vstd::string::StringExecFns;

use crate::esbuild::{serve_args, serve_arguments, texts};
use crate::html::{dev_page, memory_page, render_dev_page, render_memory_page, DEFAULT_TEMPLATE};
use crate::manifest::EntryFiles;
use memory_serve::{Asset, MemoryServe};

verus! {

#[verifier::external_type_specification]
#[verifier::external_body]
pub struct ExMemoryServe(MemoryServe);

#[verifier::external_type_specification]
#[verifier::external_body]
pub struct ExAsset(Asset);

/// Relies on memory_serve::MemoryServe::new: builds a server over the given
/// assets, opaque here.
pub assume_specification[ MemoryServe::new ](assets: &'static [Asset]) -> MemoryServe;

/// Where the static assets come from: a bundler serving in development, or
/// the assets embedded at build time.
pub enum Engine {
    Proxy { entrypoint: String, dist_dir: String },
    Memory { entry_files: EntryFiles, memory_serve: MemoryServe },
}

/// A frontend: the page title, the asset engine, extra bundler arguments and
/// an optional page template of one's own.
pub struct Spaxum {
    title: String,
    engine: Engine,
    esbuild_args: Vec<String>,
    html_template: Option<String>,
}

impl Spaxum {
    /// The page title.
    pub closed spec fn title_view(&self) -> Seq<char> {
        self.title@
    }

    /// The template set by the user, if any.
    pub closed spec fn custom_template(&self) -> Option<Seq<char>> {
        match self.html_template {
            Some(t) => Some(t@),
            None => None,
        }
    }

    /// The template the page is rendered from.
    pub open spec fn template_view(&self) -> Seq<char> {
        match self.custom_template() {
            Some(t) => t,
            None => DEFAULT_TEMPLATE@,
        }
    }

    /// Arguments passed to the development bundler after its own.
    pub closed spec fn extra_args(&self) -> Seq<Seq<char>> {
        texts(self.esbuild_args@)
    }

    /// Entry point and output directory of the development bundler, where
    /// the assets are proxied.
    pub closed spec fn proxy_view(&self) -> Option<(Seq<char>, Seq<char>)> {
        match self.engine {
            Engine::Proxy { entrypoint, dist_dir } => Some((entrypoint@, dist_dir@)),
            _ => None,
        }
    }

    /// Entry files, where the assets are served from memory.
    pub closed spec fn entry_files_view(&self) -> Option<(Seq<char>, Seq<char>)> {
        match self.engine {
            Engine::Memory { entry_files, .. } => Some((entry_files.js@, entry_files.css@)),
            _ => None,
        }
    }

    /// The engine's kind and data stay as they were.
    pub open spec fn same_engine(&self, other: &Spaxum) -> bool {
        self.proxy_view() == other.proxy_view() && self.entry_files_view()
            == other.entry_files_view()
    }

    /// A frontend served from memory, with the page title, the embedded
    /// assets and the names of its entry files.
    pub fn new(title: &str, assets: &'static [Asset], entry_files: EntryFiles) -> (r: Spaxum)
        ensures
            r.title_view() == title@,
            r.entry_files_view() == Some((entry_files.js@, entry_files.css@)),
            r.proxy_view() is None,
            r.extra_args() == Seq::<Seq<char>>::empty(),
            r.custom_template() is None,
    {
        let memory_serve = MemoryServe::new(assets);
        let r = Spaxum {
            title: String::from_str(title),
            engine: Engine::Memory { entry_files, memory_serve },
            esbuild_args: Vec::new(),
            html_template: None,
        };
        assert(r.extra_args() =~= Seq::<Seq<char>>::empty());
        r
    }

    /// A frontend in development, whose assets a bundler builds from
    /// `entrypoint` into `dist_dir` and serves.
    pub fn new_proxy(title: &str, entrypoint: &str, dist_dir: &str) -> (r: Spaxum)
        ensures
            r.title_view() == title@,
            r.proxy_view() == Some((entrypoint@, dist_dir@)),
            r.entry_files_view() is None,
            r.extra_args() == Seq::<Seq<char>>::empty(),
            r.custom_template() is None,
    {
        let r = Spaxum {
            title: String::from_str(title),
            engine: Engine::Proxy {
                entrypoint: String::from_str(entrypoint),
                dist_dir: String::from_str(dist_dir),
            },
            esbuild_args: Vec::new(),
            html_template: None,
        };
        assert(r.extra_args() =~= Seq::<Seq<char>>::empty());
        r
    }

    /// Sets the page title.
    pub fn set_title(self, title: &str) -> (r: Spaxum)
        ensures
            r.title_view() == title@,
            r.same_engine(&self),
            r.extra_args() == self.extra_args(),
            r.custom_template() == self.custom_template(),
    {
        Spaxum { title: String::from_str(title), ..self }
    }

    /// Sets the template the page is rendered from.
    pub fn set_html_template(self, html_template: &str) -> (r: Spaxum)
        ensures
            r.custom_template() == Some(html_template@),
            r.title_view() == self.title_view(),
            r.same_engine(&self),
            r.extra_args() == self.extra_args(),
    {
        Spaxum { html_template: Some(String::from_str(html_template)), ..self }
    }

    /// Sets the arguments passed to the development bundler after its own.
    pub fn set_esbuild_args(self, args: Vec<String>) -> (r: Spaxum)
        ensures
            r.extra_args() == texts(args@),
            r.title_view() == self.title_view(),
            r.same_engine(&self),
            r.custom_template() == self.custom_template(),
    {
        Spaxum { esbuild_args: args, ..self }
    }

    /// The in-memory server, where the assets are served from memory.
    pub fn memory_serve(&self) -> (r: Option<&MemoryServe>)
        ensures
            r is Some <==> self.entry_files_view() is Some,
    {
        match &self.engine {
            Engine::Memory { memory_serve, .. } => Some(memory_serve),
            _ => None,
        }
    }

    /// Takes the in-memory server out, where the assets are served from memory.
    pub fn into_memory_serve(self) -> (r: Option<MemoryServe>)
        ensures
            r is Some <==> self.entry_files_view() is Some,
    {
        match self.engine {
            Engine::Memory { memory_serve, .. } => Some(memory_serve),
            _ => None,
        }
    }

    /// The page served at every route but the assets': from memory the entry
    /// files are linked; in development the bundle's own names are, and a
    /// live-reload script comes before `</body>`.
    pub fn index_html(&self) -> (r: String)
        ensures
            r@ == match self.entry_files_view() {
                Some((js, css)) => memory_page(self.template_view(), self.title_view(), js, css),
                None => dev_page(self.template_view(), self.title_view()),
            },
    {
        let template = match &self.html_template {
            Some(t) => t.as_str(),
            None => DEFAULT_TEMPLATE,
        };
        match &self.engine {
            Engine::Memory { entry_files, .. } => render_memory_page(
                template,
                self.title.as_str(),
                entry_files.js.as_str(),
                entry_files.css.as_str(),
            ),
            Engine::Proxy { .. } => render_dev_page(template, self.title.as_str()),
        }
    }

    /// The development bundler's arguments, where the assets are proxied.
    pub fn esbuild_serve_args(&self) -> (r: Option<Vec<String>>)
        ensures
            r is None <==> self.proxy_view() is None,
            r matches Some(v) ==> texts(v@) == serve_args(
                self.proxy_view()->Some_0.0,
                self.proxy_view()->Some_0.1,
                self.extra_args(),
            ),
    {
        match &self.engine {
            Engine::Proxy { entrypoint, dist_dir } => Some(
                serve_arguments(entrypoint.as_str(), dist_dir.as_str(), &self.esbuild_args),
            ),
            _ => None,
        }
    }
}

} // verus!
