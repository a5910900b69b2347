use vstd::prelude::*;

use crate::config::Config;
use crate::errors::CatError;

verus! {

/// clap's error value, carried opaquely between the parse call and the
/// calls that read its message and kind.
#[verifier::external_type_specification]
#[verifier::external_body]
pub struct ExClapError(clap::Error);

/// What clap's parse of one command line yields, as a function of the
/// argument vector alone: on success, the resolved file names and the two
/// numbering flags; on a parse failure, nothing.  Only the rendered message
/// text varies with the terminal, so it gets no name.
pub uninterp spec fn cli_parse(args: Seq<Seq<char>>) -> Option<(Seq<Seq<char>>, bool, bool)>;

/// Relies on clap 2.34's `App::get_matches_from_safe`, applied to this
/// tool's declared options (`args` holds the program name first); whether
/// the parse succeeds, and with which values, depends on `args` alone, and
/// `cli_parse` names that outcome.  On success, `conflicts_with` guarantees
/// that `--number` and `--number-nonblank` are never both present, and the
/// FILE positional's `default_value` of `-` guarantees at least one source
/// name.  On `--help` the returned error carries the help text; on
/// `--version` clap writes the version text to standard output itself and
/// the returned error's message is empty.
#[verifier::external_body]
fn parse_command_line(args: &Vec<String>) -> (r: Result<(Vec<String>, bool, bool), clap::Error>)
    ensures
        (r is Ok) == (cli_parse(args.deep_view()) is Some),
        r matches Ok(t) ==> cli_parse(args.deep_view()) matches Some(u) && t.0.deep_view()
            == u.0 && t.1 == u.1 && t.2 == u.2,
        r matches Ok(t) ==> !(t.1 && t.2) && t.0@.len() >= 1,
{
    let app = clap::App::new("catr").version("0.1.0").author("udayj").about("Rust cat")
        .arg(clap::Arg::with_name("files").value_name("FILE").help("Input file(s)")
            .multiple(true).default_value("-"))
        .arg(clap::Arg::with_name("number").short("n").long("number").help("Number lines")
            .takes_value(false).conflicts_with("number_nonblank"))
        .arg(clap::Arg::with_name("number_nonblank").short("b").long("number-nonblank")
            .help("Number non-blank lines").takes_value(false));
    let m = app.get_matches_from_safe(args)?;
    Ok((m.values_of_lossy("files").unwrap(), m.is_present("number"), m.is_present("number_nonblank")))
}

/// Relies on clap 2.34's `Error`: its public `message` field holds the
/// rendered diagnostic (usage, help or version text).
#[verifier::external_body]
fn clap_error_message(e: &clap::Error) -> (m: String) {
    e.message.clone()
}

/// Relies on clap 2.34's `Error::use_stderr`: true for every error kind
/// except a help or version display.
#[verifier::external_body]
fn clap_error_is_usage(e: &clap::Error) -> (b: bool) {
    e.use_stderr()
}

/// The argument resolver: turns one command line (program name first) into
/// the run's configuration.  It returns `Ok` exactly when clap's parse of
/// `args` succeeds, and the configuration carries that parse's file names
/// and flags verbatim; the two numbering modes are then never both set and
/// at least one source name is present (`-` by default).  Every failure —
/// an unknown flag, both numbering modes at once, or a request for help or
/// version text — comes back as an `Arg` error carrying the message to
/// show and whether it is a genuine usage error.
pub fn resolve_config(args: &Vec<String>) -> (r: Result<Config, CatError>)
    ensures
        (r is Ok) == (cli_parse(args.deep_view()) is Some),
        r matches Ok(c) ==> cli_parse(args.deep_view()) matches Some(u) && c.files.deep_view()
            == u.0 && c.number_lines == u.1 && c.number_nonblank_lines == u.2,
        r matches Ok(c) ==> c.wf() && c.files@.len() >= 1,
        r matches Err(e) ==> e is Arg,
{
    match parse_command_line(args) {
        Ok((files, number_lines, number_nonblank_lines)) => Ok(
            Config::new(files, number_lines, number_nonblank_lines),
        ),
        Err(e) => {
            let is_usage = clap_error_is_usage(&e);
            let message = clap_error_message(&e);
            Err(CatError::Arg { message, is_usage })
        },
    }
}

} // verus!
