//! What the functions browser draws.

use vstd::prelude::*;

use crate::lambda::app::{App, TabState};
use crate::lambda::lambda::{fmt_bytes, DeadLetterConfig, EnvironmentResponse, Function, TracingConfig};
use crate::numeral;
use crate::numeral::{dec, dec_size};
use crate::screen;
use crate::screen::{color, dim, line1, Color, Line, Style};
use crate::tabs;
use crate::tabs::{
    add_detail, add_opt, add_row, add_section, body_rows, placeholder_line, row_line, show_rows,
    start_lines, status_line, Pane,
};
use crate::text;
use crate::text::{cat2, cat3, join, last_piece, owned, shorten};

verus! {

/// A text, or another one where there is none.
pub open spec fn or_else(o: Option<String>, default: Seq<char>) -> Seq<char> {
    match o {
        Some(s) => s@,
        None => default,
    }
}

fn or_text(o: &Option<String>, default: &str) -> (r: String)
    ensures
        r@ == or_else(*o, default@),
{
    match o {
        Some(s) => s.clone(),
        None => owned(default),
    }
}

/// The line of the function at row `i`.
pub open spec fn function_row(f: Seq<Function>, selected: int, i: int) -> Seq<(Seq<char>, Style)> {
    tabs::plain_row(
        i == selected,
        f[i].function_name@,
        32,
        or_else(f[i].runtime, "(image)"@),
        screen::colored(Color::Gray),
    )
}

/// The list of functions in a frame that is `height` lines high.
pub fn draw_list(tab: &TabState, height: u16) -> (r: Pane)
    ensures
        match tabs::placeholder(tab.data@, "(no functions)"@) {
            Some(l) => r.title@ == " functions "@ && screen::drawn(r.lines@) == seq![l],
            None => {
                &&& r.title@ == " functions ("@ + numeral::decimal(tab.data@.items.len()) + ") "@
                &&& screen::drawn(r.lines@) == tabs::shown_rows(
                    |i: int| function_row(tab.data@.items, tab.data@.selected, i),
                    tab.data@.selected,
                    tab.data@.items.len() as int,
                    if height >= 2 {
                        height - 2
                    } else {
                        0
                    },
                )
            },
        },
{
    match placeholder_line(&tab.data, "(no functions)") {
        Some(l) => {
            let mut out = start_lines();
            add_row(&mut out, l);
            assert(screen::drawn(out@) =~= seq![l@]);
            Pane { title: owned(" functions "), lines: out }
        },
        None => {
            let items = &tab.data.items;
            let n: usize = items.len();
            let selected: usize = tab.data.selected;
            let draw = |i: usize| -> (l: Line)
                requires
                    i < items.len(),
                ensures
                    l@ == function_row(items@, selected as int, i as int),
            {
                let f = &items[i];
                let about = or_text(&f.runtime, "(image)");
                row_line(i == selected, f.function_name.as_str(), 32, about.as_str(), color(Color::Gray))
            };
            let rows = show_rows(
                n,
                selected,
                body_rows(height),
                draw,
                Ghost(|i: int| function_row(tab.data@.items, tab.data@.selected, i)),
            );
            Pane { title: cat3(" functions (", dec_size(n).as_str(), ") "), lines: rows }
        },
    }
}

/// A number with its unit, or a dash.
pub open spec fn with_unit(n: Option<u32>, unit: Seq<char>) -> Seq<char> {
    match n {
        Some(k) => numeral::decimal(k as nat) + unit,
        None => "—"@,
    }
}

fn with_unit_text(n: Option<u32>, unit: &str) -> (r: String)
    ensures
        r@ == with_unit(n, unit@),
{
    match n {
        Some(k) => cat2(dec(k as u64).as_str(), unit),
        None => owned("—"),
    }
}

/// The lines about the environment: the number of variables where there are
/// any, and the error where there is one with a code.
pub open spec fn environment_lines(e: Option<EnvironmentResponse>) -> Seq<Seq<(Seq<char>, Style)>> {
    match e {
        None => tabs::no_lines(),
        Some(env) => tabs::opt_row(
            "Env vars"@,
            13,
            if env.variables@.dom().len() > 0 {
                Some(numeral::decimal(env.variables@.dom().len()))
            } else {
                None
            },
        ) + tabs::opt_row("Env error"@, 13, environment_error(env)),
    }
}

/// What is said about an environment that could not be read.
pub open spec fn environment_error(env: EnvironmentResponse) -> Option<Seq<char>> {
    match env.error {
        None => None,
        Some(err) => match err.error_code {
            None => None,
            Some(code) => Some(or_else(err.message, code@)),
        },
    }
}

fn add_environment(out: &mut Vec<Line>, e: &Option<EnvironmentResponse>)
    ensures
        screen::drawn(final(out)@) == screen::drawn(old(out)@) + environment_lines(*e),
{
    let ghost start = screen::drawn(out@);
    match e {
        None => {},
        Some(env) => {
            let n: usize = env.var_count();
            if n > 0 {
                let t = dec_size(n);
                add_opt(out, "Env vars", 13, Some(t.as_str()));
            } else {
                add_opt(out, "Env vars", 13, None);
            }
            match &env.error {
                None => add_opt(out, "Env error", 13, None),
                Some(err) => match &err.error_code {
                    None => add_opt(out, "Env error", 13, None),
                    Some(code) => {
                        let t = or_text(&err.message, code.as_str());
                        add_opt(out, "Env error", 13, Some(t.as_str()));
                    },
                },
            }
        },
    }
    assert(screen::drawn(out@) =~= start + environment_lines(*e));
}

/// The executions that are kept free: 0 shuts the function off.
pub open spec fn reserved_text(n: Option<u32>) -> Option<Seq<char>> {
    match n {
        None => None,
        Some(k) => Some(
            if k == 0 {
                "0 (throttled)"@
            } else {
                numeral::decimal(k as nat)
            },
        ),
    }
}

/// The tracing mode.
pub open spec fn tracing_mode(t: Option<TracingConfig>) -> Option<Seq<char>> {
    match t {
        Some(c) => text::opt_view(c.mode),
        None => None,
    }
}

/// The name of the dead letter queue, where one is set.
pub open spec fn dlq_name(d: Option<DeadLetterConfig>) -> Option<Seq<char>> {
    match d {
        Some(c) => match c.target_arn {
            Some(a) => if a@.len() > 0 {
                Some(text::after_last(a@, '/'))
            } else {
                None
            },
            None => None,
        },
        None => None,
    }
}

/// The section about the description, where there is one.
pub open spec fn description_lines(d: Option<String>) -> Seq<Seq<(Seq<char>, Style)>> {
    match d {
        Some(s) => if s@.len() > 0 {
            tabs::section(" Description "@, s@, screen::colored(Color::Gray))
        } else {
            tabs::no_lines()
        },
        None => tabs::no_lines(),
    }
}

/// The details of a function.
pub open spec fn detail_lines(f: Function) -> Seq<Seq<(Seq<char>, Style)>> {
    tabs::no_lines() + seq![tabs::detail_row("Name"@, 13, f.function_name@)] + seq![
        tabs::detail_row("Runtime"@, 13, or_else(f.runtime, "(image)"@)),
    ] + seq![tabs::detail_row("Handler"@, 13, or_else(f.handler, "—"@))] + seq![
        tabs::detail_row("Memory"@, 13, with_unit(f.memory_size, " MB"@)),
    ] + seq![tabs::detail_row("Timeout"@, 13, with_unit(f.timeout, "s"@))] + seq![
        tabs::detail_row(
            "Code size"@,
            13,
            match f.code_size {
                Some(n) => numeral::byte_count(n as nat),
                None => "—"@,
            },
        ),
    ] + tabs::opt_row(
        "Arch"@,
        13,
        if f.architectures@.len() > 0 {
            Some(text::joined(text::views(f.architectures@), ", "@))
        } else {
            None
        },
    ) + tabs::opt_row("Package"@, 13, text::opt_view(f.package_type)) + tabs::opt_row(
        "Modified"@,
        13,
        text::opt_view(f.last_modified),
    ) + tabs::opt_row(
        "Role"@,
        13,
        if f.role@.len() > 0 {
            Some(text::after_last(f.role@, '/'))
        } else {
            None
        },
    ) + environment_lines(f.environment) + tabs::opt_row(
        "Reserved concur"@,
        13,
        reserved_text(f.reserved_concurrent_executions),
    ) + tabs::opt_row("Tracing"@, 13, tracing_mode(f.tracing_config)) + tabs::opt_row(
        "DLQ"@,
        13,
        dlq_name(f.dead_letter_config),
    ) + tabs::section(
        " ARN "@,
        f.function_arn@,
        screen::dimmed(screen::colored(Color::Gray)),
    ) + description_lines(f.description)
}

fn add_opt_string(out: &mut Vec<Line>, name: &str, value: &Option<String>)
    ensures
        screen::drawn(final(out)@) == screen::drawn(old(out)@) + tabs::opt_row(
            name@,
            13,
            text::opt_view(*value),
        ),
{
    match value {
        Some(v) => add_opt(out, name, 13, Some(v.as_str())),
        None => add_opt(out, name, 13, None),
    }
}

/// The details of the selected function.
pub fn draw_detail(fun: Option<&Function>) -> (r: Vec<Line>)
    ensures
        screen::drawn(r@) == (match fun {
            None => seq![seq![("(no function selected)"@, screen::colored(Color::DarkGray))]],
            Some(f) => detail_lines(*f),
        }),
{
    let mut out = start_lines();
    let f = match fun {
        None => {
            add_row(&mut out, line1("(no function selected)", color(Color::DarkGray)));
            assert(screen::drawn(out@) =~= seq![
                seq![("(no function selected)"@, screen::colored(Color::DarkGray))],
            ]);
            return out;
        },
        Some(f) => f,
    };
    add_detail(&mut out, "Name", 13, f.function_name.as_str());
    let t = or_text(&f.runtime, "(image)");
    add_detail(&mut out, "Runtime", 13, t.as_str());
    let t = or_text(&f.handler, "—");
    add_detail(&mut out, "Handler", 13, t.as_str());
    let t = with_unit_text(f.memory_size, " MB");
    add_detail(&mut out, "Memory", 13, t.as_str());
    let t = with_unit_text(f.timeout, "s");
    add_detail(&mut out, "Timeout", 13, t.as_str());
    let t = match f.code_size {
        Some(n) => fmt_bytes(n),
        None => owned("—"),
    };
    add_detail(&mut out, "Code size", 13, t.as_str());
    if f.architectures.len() > 0 {
        let t = join(&f.architectures, ", ");
        add_opt(&mut out, "Arch", 13, Some(t.as_str()));
    } else {
        add_opt(&mut out, "Arch", 13, None);
    }
    add_opt_string(&mut out, "Package", &f.package_type);
    add_opt_string(&mut out, "Modified", &f.last_modified);
    if !f.role.as_str().is_empty() {
        let t = short_arn(f.role.as_str());
        add_opt(&mut out, "Role", 13, Some(t.as_str()));
    } else {
        add_opt(&mut out, "Role", 13, None);
    }
    add_environment(&mut out, &f.environment);
    let t = match f.reserved_concurrent_executions {
        None => None,
        Some(k) => Some(if k == 0 { owned("0 (throttled)") } else { dec(k as u64) }),
    };
    add_opt_string(&mut out, "Reserved concur", &t);
    match &f.tracing_config {
        Some(c) => add_opt_string(&mut out, "Tracing", &c.mode),
        None => add_opt(&mut out, "Tracing", 13, None),
    }
    match &f.dead_letter_config {
        Some(c) => match &c.target_arn {
            Some(a) => {
                if !a.as_str().is_empty() {
                    let t = short_arn(a.as_str());
                    add_opt(&mut out, "DLQ", 13, Some(t.as_str()));
                } else {
                    add_opt(&mut out, "DLQ", 13, None);
                }
            },
            None => add_opt(&mut out, "DLQ", 13, None),
        },
        None => add_opt(&mut out, "DLQ", 13, None),
    }
    add_section(&mut out, " ARN ", f.function_arn.as_str(), dim(color(Color::Gray)));
    let ghost before = screen::drawn(out@);
    match &f.description {
        Some(d) => {
            if !d.as_str().is_empty() {
                add_section(&mut out, " Description ", d.as_str(), color(Color::Gray));
            }
        },
        None => {},
    }
    assert(screen::drawn(out@) =~= before + description_lines(f.description));
    out
}

/// The status line.
pub fn draw_status(app: &App) -> (r: Line)
    ensures
        r@ == tabs::status_row(
            app.status@,
            " 1-9 tab · ↑↓/jk move · o console · y ARN · l logs · L DLQ · r refresh · q quit "@,
        ),
{
    status_line(
        app.status.as_str(),
        " 1-9 tab · ↑↓/jk move · o console · y ARN · l logs · L DLQ · r refresh · q quit ",
    )
}

/// `s` if it has at most `max` characters, else its beginning and an ellipsis.
pub fn truncate(s: &str, max: usize) -> (r: String)
    ensures
        r@ == text::shortened(s@, max as int),
{
    shorten(s, max)
}

/// The name at the end of an ARN.
pub fn short_arn(arn: &str) -> (r: String)
    ensures
        r@ == text::after_last(arn@, '/'),
{
    owned(last_piece(arn, '/'))
}

} // verus!
