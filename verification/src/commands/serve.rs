//! `serve`: serve a project directory under a `.test` domain.
use vstd::prelude::*;
use crate::app_core::configuration::{socket_of, Configuration};
use crate::drivers::laravel::{laravel_serve_ops, opt_text, Laravel};
use crate::drivers::{drivers, Driver, DriverKind, ServeContext};
use crate::process::owned;
use crate::script::{append_ops, ops_view, push_op, Missing, MissingView, Op, OpView};
use crate::text::{all_white, join, join_path, same_text, trims_to_empty};

verus! {

/// The arguments of `serve`.
pub struct ServeArgs {
    /// The project directory (`.` by default).
    pub path: String,
    /// The domain to serve it under.
    pub domain: Option<String>,
    /// The PHP version to serve it with.
    pub php_version: Option<String>,
}

/// Whether the project is the current directory: the path is blank or `.`.
pub open spec fn uses_current_dir_spec(path: Seq<char>) -> bool {
    all_white(path) || path == "."@
}

/// The PHP-FPM socket of the version asked for.
pub open spec fn php_fpm_spec(php_version: Option<Seq<char>>, config: Configuration) -> Option<Seq<char>> {
    match php_version {
        Some(v) => socket_of(config.php@, v),
        None => None,
    }
}

/// Serving: the first driver whose marker files all exist serves the project
/// (only Laravel is known); otherwise there is no matching driver.
pub open spec fn serve_ops(
    domain: Option<Seq<char>>,
    path: Seq<char>,
    php_fpm: Option<Seq<char>>,
    files_dir: Seq<char>,
) -> Seq<OpView> {
    seq![
        OpView::IfMissing(join_path(path, "artisan"@), MissingView::Fail("No matching driver found"@)),
        OpView::IfMissing(
            join_path(join_path(path, "public"@), "index.php"@),
            MissingView::Fail("No matching driver found"@),
        ),
        OpView::Print("Using Laravel driver."@),
    ] + laravel_serve_ops(domain, path, php_fpm, files_dir)
}

/// Decides [`uses_current_dir_spec`].
pub fn uses_current_dir(path: &str) -> (b: bool)
    ensures
        b == uses_current_dir_spec(path@),
{
    trims_to_empty(path) || same_text(path, ".")
}

/// The PHP-FPM socket for `args`, looked up in `config`.
pub fn php_fpm(args: &ServeArgs, config: &Configuration) -> (r: Option<String>)
    requires
        config.wf(),
    ensures
        opt_text(r) == php_fpm_spec(opt_text(args.php_version), *config),
{
    match &args.php_version {
        Some(v) => config.fpm_socket_for(v.as_str()),
        None => None,
    }
}

/// The context of serving the project at `path` (already resolved against
/// the current directory) for `args`.
pub fn context(args: ServeArgs, path: String, config: &Configuration) -> (ctx: ServeContext)
    requires
        config.wf(),
    ensures
        opt_text(ctx.domain) == opt_text(args.domain),
        ctx.path@ == path@,
        opt_text(ctx.php_version) == opt_text(args.php_version),
        opt_text(ctx.php_fpm) == php_fpm_spec(opt_text(args.php_version), *config),
{
    let php_fpm = php_fpm(&args, config);
    ServeContext { domain: args.domain, path, php_version: args.php_version, php_fpm }
}

/// The serve script for `ctx`, writing site files under `files_dir`: the
/// first driver of [`drivers`] (there is one) checks its marker files, then
/// serves.
pub fn run(ctx: &ServeContext, files_dir: &str) -> (ops: Vec<Op>)
    ensures
        ops_view(ops@) == serve_ops(
            opt_text(ctx.domain),
            ctx.path@,
            opt_text(ctx.php_fpm),
            files_dir@,
        ),
{
    let kinds = drivers();
    let driver = match kinds[0] {
        DriverKind::Laravel => Laravel,
    };
    let markers = driver.markers(ctx.path.as_str());
    let ghost mv = crate::process::texts(markers@);
    assert(mv.len() == markers@.len());
    assert(mv.len() == 2);
    assert(mv[0] == markers@[0]@ && mv[1] == markers@[1]@);
    let mut ops: Vec<Op> = Vec::new();
    push_op(
        &mut ops,
        Op::IfMissing(owned(markers[0].as_str()), Missing::Fail(owned("No matching driver found"))),
    );
    push_op(
        &mut ops,
        Op::IfMissing(owned(markers[1].as_str()), Missing::Fail(owned("No matching driver found"))),
    );
    let mut using = owned("Using ");
    let name = driver.name();
    using.append(name.as_str());
    using.append(" driver.");
    push_op(&mut ops, Op::Print(using));
    append_ops(&mut ops, driver.serve(ctx, files_dir));
    proof {
        reveal_strlit("Using ");
        reveal_strlit(" driver.");
        reveal_strlit("Laravel");
        reveal_strlit("Using Laravel driver.");
        assert("Using "@ + "Laravel"@ + " driver."@ =~= "Using Laravel driver."@);
    }
    assert(ops_view(ops@) =~= serve_ops(
        opt_text(ctx.domain),
        ctx.path@,
        opt_text(ctx.php_fpm),
        files_dir@,
    ));
    ops
}

} // verus!
