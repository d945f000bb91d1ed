//! Laravel projects, served by Caddy through PHP-FPM.
use vstd::prelude::*;
use crate::drivers::{Driver, ServeContext};
use crate::process::{owned, texts};
use crate::script::{ops_view, push_op, say, Op, OpView};
use crate::text::{chars_of, ends_with, file_name, file_name_spec, join, join_path};

verus! {

/// Serves Laravel projects.
pub struct Laravel;

/// What the `slug` crate makes of a text: lower-case ASCII letters and
/// digits, runs of anything else turned into single dashes.
pub uninterp spec fn slugify_of(s: Seq<char>) -> Seq<char>;

/// `slug::slugify`. Trusted: its result is `slugify_of` of the text, a
/// function of the text alone; nothing more of it is stated.
#[verifier::external_body]
fn slugify(s: &str) -> (r: String)
    ensures
        r@ == slugify_of(s@),
{
    slug::slugify(s)
}

/// The domain ending in `.test`: as it is when it does, with `.test` added
/// otherwise.
pub open spec fn test_domain_spec(domain: Seq<char>) -> Seq<char> {
    if ".test"@.is_suffix_of(domain) {
        domain
    } else {
        domain + ".test"@
    }
}

/// Every site domain ends in `.test`, and putting a domain under `.test`
/// twice changes nothing more than doing it once.
pub proof fn lemma_test_domain(domain: Seq<char>)
    ensures
        ".test"@.is_suffix_of(test_domain_spec(domain)),
        test_domain_spec(test_domain_spec(domain)) == test_domain_spec(domain),
{
    let t = ".test"@;
    if !t.is_suffix_of(domain) {
        let d = domain + t;
        assert(d.subrange(d.len() - t.len(), d.len() as int) =~= t);
    }
}

/// The site's domain: the one asked for, or the slug of the project
/// directory's name; in both cases under `.test`.
pub open spec fn site_domain_spec(domain: Option<Seq<char>>, path: Seq<char>) -> Seq<char> {
    test_domain_spec(
        match domain {
            Some(d) => d,
            None => slugify_of(file_name_spec(path).unwrap()),
        },
    )
}

/// The Caddy site block.
pub open spec fn caddyfile_spec(domain: Seq<char>, public: Seq<char>, php_fpm: Seq<char>) -> Seq<char> {
    domain + " {\n    tls internal\n    root * "@ + public + "\n    encode zstd gzip\n\n    php_fastcgi "@
        + php_fpm + "\n    file_server\n}\n"@
}

/// The view of an optional string.
pub open spec fn opt_text(o: Option<String>) -> Option<Seq<char>> {
    match o {
        Some(s) => Some(s@),
        None => None,
    }
}

/// The site files of `domain` under the site directory.
pub open spec fn site_file_spec(files_dir: Seq<char>, domain: Seq<char>) -> Seq<char> {
    join_path(files_dir, domain + ".caddyfile"@)
}

/// Serving a Laravel project: a PHP-FPM socket is needed; without a domain
/// the project directory must have a name, or the program aborts (as on
/// unwrapping an absent value); the site block, rooted at
/// `<project>/public`, is written to `<site dir>/<domain>.caddyfile`.
pub open spec fn laravel_serve_ops(
    domain: Option<Seq<char>>,
    path: Seq<char>,
    php_fpm: Option<Seq<char>>,
    files_dir: Seq<char>,
) -> Seq<OpView> {
    seq![OpView::Say("→ Configuring Laravel site..."@)] + match php_fpm {
        None => seq![OpView::Fail("Please provide php-fpm path."@)],
        Some(fpm) => if domain is None && file_name_spec(path) is None {
            seq![OpView::Abort(unnamed_project_panic())]
        } else {
            let d = site_domain_spec(domain, path);
            let file = site_file_spec(files_dir, d);
            seq![
                OpView::Say("✓ Using domain: "@ + d),
                OpView::Say("✓ Using PHP-FPM: "@ + fpm),
                OpView::Say("→ Writing Caddyfile to "@ + file),
                OpView::WriteFile(file, caddyfile_spec(d, join_path(path, "public"@), fpm)),
                OpView::Say("✓ Caddyfile created successfully"@),
            ]
        },
    }
}

/// The message of the abort on a project directory without a name.
pub open spec fn unnamed_project_panic() -> Seq<char> {
    "called `Option::unwrap()` on a `None` value"@
}

impl Laravel {
    /// See [`test_domain_spec`].
    pub fn test_domain(domain: &str) -> (d: String)
        ensures
            d@ == test_domain_spec(domain@),
    {
        let cs = chars_of(domain);
        let suffix = chars_of(".test");
        let mut d = owned(domain);
        if !ends_with(cs.as_slice(), suffix.as_slice()) {
            d.append(".test");
        }
        d
    }

    /// See [`site_domain_spec`]; the project directory must have a name when
    /// no domain is given.
    pub fn site_domain(domain: Option<&str>, path: &str) -> (d: String)
        requires
            domain is Some || file_name_spec(path@) is Some,
        ensures
            d@ == site_domain_spec(
                match domain {
                    Some(x) => Some(x@),
                    None => None,
                },
                path@,
            ),
    {
        match domain {
            Some(x) => Self::test_domain(x),
            None => {
                let name = match file_name(path) {
                    Some(n) => n,
                    None => owned(""),
                };
                let slug = slugify(name.as_str());
                Self::test_domain(slug.as_str())
            },
        }
    }

    /// See [`caddyfile_spec`].
    pub fn caddyfile(domain: &str, public: &str, php_fpm: &str) -> (c: String)
        ensures
            c@ == caddyfile_spec(domain@, public@, php_fpm@),
    {
        let mut c = owned(domain);
        c.append(" {\n    tls internal\n    root * ");
        c.append(public);
        c.append("\n    encode zstd gzip\n\n    php_fastcgi ");
        c.append(php_fpm);
        c.append("\n    file_server\n}\n");
        c
    }

    /// The script that serves the project of `ctx`, writing its site file
    /// under `files_dir`.
    pub fn serve(&self, ctx: &ServeContext, files_dir: &str) -> (ops: Vec<Op>)
        ensures
            ops_view(ops@) == laravel_serve_ops(
                opt_text(ctx.domain),
                ctx.path@,
                opt_text(ctx.php_fpm),
                files_dir@,
            ),
    {
        let mut ops: Vec<Op> = Vec::new();
        push_op(&mut ops, say("→ Configuring Laravel site..."));
        match &ctx.php_fpm {
            None => {
                push_op(&mut ops, Op::Fail(owned("Please provide php-fpm path.")));
            },
            Some(_) if ctx.domain.is_none() && file_name(ctx.path.as_str()).is_none() => {
                push_op(
                    &mut ops,
                    Op::Abort(owned("called `Option::unwrap()` on a `None` value")),
                );
            },
            Some(fpm) => {
                let domain = match &ctx.domain {
                    Some(d) => Self::site_domain(Some(d.as_str()), ctx.path.as_str()),
                    None => Self::site_domain(None, ctx.path.as_str()),
                };
                let mut name = owned(domain.as_str());
                name.append(".caddyfile");
                let file = join(files_dir, name.as_str());
                let public = join(ctx.path.as_str(), "public");
                let mut m1 = owned("✓ Using domain: ");
                m1.append(domain.as_str());
                push_op(&mut ops, Op::Say(m1));
                let mut m2 = owned("✓ Using PHP-FPM: ");
                m2.append(fpm.as_str());
                push_op(&mut ops, Op::Say(m2));
                let mut m3 = owned("→ Writing Caddyfile to ");
                m3.append(file.as_str());
                push_op(&mut ops, Op::Say(m3));
                let content = Self::caddyfile(domain.as_str(), public.as_str(), fpm.as_str());
                push_op(&mut ops, Op::WriteFile(file, content));
                push_op(&mut ops, say("✓ Caddyfile created successfully"));
            },
        }
        assert(ops_view(ops@) =~= laravel_serve_ops(
            opt_text(ctx.domain),
            ctx.path@,
            opt_text(ctx.php_fpm),
            files_dir@,
        ));
        ops
    }
}

impl Driver for Laravel {
    fn name(&self) -> (n: String)
        ensures
            n@ == "Laravel"@,
    {
        Laravel::display_name()
    }

    fn markers(&self, path: &str) -> (m: Vec<String>)
        ensures
            texts(m@) == seq![
                join_path(path@, "artisan"@),
                join_path(join_path(path@, "public"@), "index.php"@),
            ],
    {
        Laravel::marker_paths(path)
    }
}

impl Laravel {
    /// `Laravel`.
    pub fn display_name() -> (n: String)
        ensures
            n@ == "Laravel"@,
    {
        owned("Laravel")
    }

    /// `<project>/artisan` and `<project>/public/index.php`.
    pub fn marker_paths(path: &str) -> (m: Vec<String>)
        ensures
            texts(m@) == seq![
                join_path(path@, "artisan"@),
                join_path(join_path(path@, "public"@), "index.php"@),
            ],
    {
        let mut m: Vec<String> = Vec::new();
        m.push(join(path, "artisan"));
        let public = join(path, "public");
        m.push(join(public.as_str(), "index.php"));
        assert(texts(m@) =~= seq![
            join_path(path@, "artisan"@),
            join_path(join_path(path@, "public"@), "index.php"@),
        ]);
        m
    }
}

} // verus!
