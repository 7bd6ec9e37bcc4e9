//! The template renderer's part of the work: the report as a template
//! context before the engine runs, and what the engine's outcome means
//! after it.
//!
//! Templates arrive as text, each under its name. Reading them from disk and
//! running the engine on them are the caller's part: the engine can stop the
//! program on a template, which only the caller can guard against.

use crate::error::{ErrorKind, WeatherError};
use crate::present::{
    DailyEntry, DailyEntryView, HourlyEntry, HourlyEntryView, Report, ReportView,
};
use crate::text::same_text;
use vstd::prelude::*;
use vstd::string::*;

verus! {

/// The template engine's context: values by name.
#[verifier::external_type_specification]
#[verifier::external_body]
pub struct ExContext(tera::Context);

/// The template engine's error.
#[verifier::external_type_specification]
#[verifier::external_body]
pub struct ExTeraError(tera::Error);

/// The names in a context that hold a string, each with its string.
pub uninterp spec fn context_texts(context: tera::Context) -> Map<Seq<char>, Seq<char>>;

/// The names in a context that hold a list of records, each with its list.
/// A record is a set of named strings.
pub uninterp spec fn context_tables(context: tera::Context) -> Map<
    Seq<char>,
    Seq<Map<Seq<char>, Seq<char>>>,
>;

/// No string under any name.
pub open spec fn no_texts() -> Map<Seq<char>, Seq<char>> {
    Map::empty()
}

/// No list under any name.
pub open spec fn no_tables() -> Map<Seq<char>, Seq<Map<Seq<char>, Seq<char>>>> {
    Map::empty()
}

/// The record made of a list of named strings. A name that occurs twice
/// keeps its last string.
pub open spec fn record_of(fields: Seq<(String, String)>) -> Map<Seq<char>, Seq<char>>
    decreases fields.len(),
{
    if fields.len() == 0 {
        Map::empty()
    } else {
        record_of(fields.drop_last()).insert(fields.last().0@, fields.last().1@)
    }
}

/// The records made of a list of lists of named strings.
pub open spec fn table_of(rows: Seq<Vec<(String, String)>>) -> Seq<Map<Seq<char>, Seq<char>>> {
    rows.map_values(|row: Vec<(String, String)>| record_of(row@))
}

/// Calls `tera::Context::new`, which makes a context without values.
#[verifier::external_body]
fn empty_context() -> (context: tera::Context)
    ensures
        context_texts(context) == no_texts(),
        context_tables(context) == no_tables(),
{
    tera::Context::new()
}

/// Calls `tera::Context::insert` with a string. The name then holds that
/// string, and no longer what it held before; other names are untouched.
#[verifier::external_body]
fn insert_text(context: &mut tera::Context, name: &str, value: &str)
    ensures
        context_texts(*final(context)) == context_texts(*old(context)).insert(name@, value@),
        context_tables(*final(context)) == context_tables(*old(context)).remove(name@),
{
    context.insert(name, value);
}

/// Calls `tera::Context::insert` with a list of string maps. The name then
/// holds that list of records, and no longer what it held before; other
/// names are untouched.
#[verifier::external_body]
fn insert_table(context: &mut tera::Context, name: &str, rows: &Vec<Vec<(String, String)>>)
    ensures
        context_tables(*final(context)) == context_tables(*old(context)).insert(
            name@,
            table_of(rows@),
        ),
        context_texts(*final(context)) == context_texts(*old(context)).remove(name@),
{
    let records: Vec<std::collections::HashMap<String, String>> = rows.iter().map(
        |row| row.iter().cloned().collect(),
    ).collect();
    context.insert(name, &records);
}

/// Writes a `tera::Error` with its causes, through its `Debug` form.
#[verifier::external_body]
fn error_text(error: &tera::Error) -> String {
    format!("{:?}", error)
}

/// The record that a template sees for a daily line.
pub open spec fn daily_record(line: DailyEntryView) -> Map<Seq<char>, Seq<char>> {
    no_texts().insert("date"@, line.date).insert("min"@, line.min).insert("max"@, line.max).insert(
        "description"@,
        line.description,
    ).insert("icon"@, line.icon)
}

/// The record that a template sees for an hourly line.
pub open spec fn hourly_record(line: HourlyEntryView) -> Map<Seq<char>, Seq<char>> {
    no_texts().insert("time"@, line.time).insert("temp"@, line.temp).insert(
        "description"@,
        line.description,
    ).insert("icon"@, line.icon)
}

/// The strings that a template sees: the current temperature, and sunrise
/// and sunset where they can be written.
pub open spec fn report_texts(report: ReportView) -> Map<Seq<char>, Seq<char>> {
    let base = no_texts().insert("current_temp"@, report.current_temp);
    let risen = match report.sunrise {
        Some(text) => base.insert("sunrise"@, text),
        None => base,
    };
    match report.sunset {
        Some(text) => risen.insert("sunset"@, text),
        None => risen,
    }
}

/// The lists that a template sees: the daily and the hourly lines.
pub open spec fn report_tables(report: ReportView) -> Map<
    Seq<char>,
    Seq<Map<Seq<char>, Seq<char>>>,
> {
    no_tables().insert(
        "daily"@,
        report.daily.map_values(|line: DailyEntryView| daily_record(line)),
    ).insert("hourly"@, report.hourly.map_values(|line: HourlyEntryView| hourly_record(line)))
}

/// Whether a template of that name is among the templates.
pub open spec fn has_template(templates: Seq<(String, String)>, name: Seq<char>) -> bool {
    exists|i: int| 0 <= i < templates.len() && (#[trigger] templates[i]).0@ == name
}

/// What is said of a template that is not there.
pub open spec fn missing_template_detail(name: Seq<char>) -> Seq<char> {
    "no template named "@ + name
}

/// How the words on a failure of the engine begin.
pub open spec fn engine_failure_prefix() -> Seq<char> {
    "template engine: "@
}

/// The words on a failure of the engine are never those on a missing
/// template, so that the detail tells the two apart.
pub proof fn lemma_details_differ(name: Seq<char>, detail: Seq<char>)
    requires
        engine_failure_prefix().is_prefix_of(detail),
    ensures
        detail != missing_template_detail(name),
{
    reveal_strlit("template engine: ");
    reveal_strlit("no template named ");
    assert(detail[0] == engine_failure_prefix()[0]);
    assert(missing_template_detail(name)[0] == "no template named "@[0]);
}

/// Adding a named string to a list adds it to the record.
proof fn lemma_record_push(fields: Seq<(String, String)>, field: (String, String))
    ensures
        record_of(fields.push(field)) == record_of(fields).insert(field.0@, field.1@),
{
    assert(fields.push(field).drop_last() =~= fields);
}

/// Appends a named string to a row.
fn push_field(row: &mut Vec<(String, String)>, name: &str, value: &String)
    ensures
        record_of(final(row)@) == record_of(old(row)@).insert(name@, value@),
{
    let field = (String::from_str(name), value.clone());
    proof {
        lemma_record_push(row@, field);
    }
    row.push(field);
}

/// A daily line as named strings.
pub fn daily_row(line: &DailyEntry) -> (row: Vec<(String, String)>)
    ensures
        record_of(row@) == daily_record(line@),
{
    let mut row: Vec<(String, String)> = Vec::new();
    push_field(&mut row, "date", &line.date);
    push_field(&mut row, "min", &line.min);
    push_field(&mut row, "max", &line.max);
    push_field(&mut row, "description", &line.description);
    push_field(&mut row, "icon", &line.icon);
    row
}

/// An hourly line as named strings.
pub fn hourly_row(line: &HourlyEntry) -> (row: Vec<(String, String)>)
    ensures
        record_of(row@) == hourly_record(line@),
{
    let mut row: Vec<(String, String)> = Vec::new();
    push_field(&mut row, "time", &line.time);
    push_field(&mut row, "temp", &line.temp);
    push_field(&mut row, "description", &line.description);
    push_field(&mut row, "icon", &line.icon);
    row
}

/// The daily lines as rows of named strings.
fn daily_rows(lines: &Vec<DailyEntry>) -> (rows: Vec<Vec<(String, String)>>)
    ensures
        table_of(rows@) == lines@.map_values(|line: DailyEntry| daily_record(line@)),
{
    let mut rows: Vec<Vec<(String, String)>> = Vec::new();
    let mut i: usize = 0;
    while i < lines.len()
        invariant
            i <= lines@.len(),
            rows@.len() == i,
            forall|k: int| 0 <= k < i ==> record_of(#[trigger] rows@[k]@) == daily_record(lines@[k]@),
        decreases lines@.len() - i,
    {
        rows.push(daily_row(&lines[i]));
        i += 1;
    }
    rows
}

/// The hourly lines as rows of named strings.
fn hourly_rows(lines: &Vec<HourlyEntry>) -> (rows: Vec<Vec<(String, String)>>)
    ensures
        table_of(rows@) == lines@.map_values(|line: HourlyEntry| hourly_record(line@)),
{
    let mut rows: Vec<Vec<(String, String)>> = Vec::new();
    let mut i: usize = 0;
    while i < lines.len()
        invariant
            i <= lines@.len(),
            rows@.len() == i,
            forall|k: int|
                0 <= k < i ==> record_of(#[trigger] rows@[k]@) == hourly_record(lines@[k]@),
        decreases lines@.len() - i,
    {
        rows.push(hourly_row(&lines[i]));
        i += 1;
    }
    rows
}

/// The context that a template is rendered with: `current_temp`, `sunrise`
/// and `sunset` as strings, the latter two only where they can be written,
/// and `daily` and `hourly` as lists of records.
pub fn build_context(report: &Report) -> (context: tera::Context)
    ensures
        context_texts(context) == report_texts(report@),
        context_tables(context) == report_tables(report@),
{
    let mut context = empty_context();
    insert_text(&mut context, "current_temp", report.current_temp.as_str());
    if let Some(text) = &report.sunrise {
        insert_text(&mut context, "sunrise", text.as_str());
    }
    if let Some(text) = &report.sunset {
        insert_text(&mut context, "sunset", text.as_str());
    }
    proof {
        reveal_strlit("current_temp");
        reveal_strlit("sunrise");
        reveal_strlit("sunset");
        reveal_strlit("daily");
        reveal_strlit("hourly");
        assert("sunset"@[0] != "hourly"@[0]);
        assert("sunrise"@.len() != "hourly"@.len());
        assert("current_temp"@.len() != "hourly"@.len());
    }
    insert_table(&mut context, "daily", &daily_rows(&report.daily));
    insert_table(&mut context, "hourly", &hourly_rows(&report.hourly));
    assert(report@.daily.map_values(|line: DailyEntryView| daily_record(line))
        =~= report.daily@.map_values(|line: DailyEntry| daily_record(line@)));
    assert(report@.hourly.map_values(|line: HourlyEntryView| hourly_record(line))
        =~= report.hourly@.map_values(|line: HourlyEntry| hourly_record(line@)));
    context
}

/// Whether a template of that name is among the templates.
pub fn contains_template(templates: &Vec<(String, String)>, name: &str) -> (found: bool)
    ensures
        found == has_template(templates@, name@),
{
    let mut i: usize = 0;
    while i < templates.len()
        invariant
            i <= templates@.len(),
            forall|k: int| 0 <= k < i ==> (#[trigger] templates@[k]).0@ != name@,
        decreases templates@.len() - i,
    {
        if same_text(templates[i].0.as_str(), name) {
            return true;
        }
        i += 1;
    }
    false
}

/// The context for the template `name`, if it is among the templates; a
/// render error if it is not.
pub fn template_context(templates: &Vec<(String, String)>, name: &str, report: &Report) -> (context:
    Result<tera::Context, WeatherError>)
    ensures
        context is Ok <==> has_template(templates@, name@),
        context matches Ok(c) ==> context_texts(c) == report_texts(report@) && context_tables(c)
            == report_tables(report@),
        context matches Err(error) ==> error.kind == ErrorKind::Render && error.detail@
            == missing_template_detail(name@),
{
    if contains_template(templates, name) {
        Ok(build_context(report))
    } else {
        let mut detail = String::from_str("no template named ");
        detail.append(name);
        Err(WeatherError { kind: ErrorKind::Render, detail })
    }
}

/// The page or the failure that an outcome of the engine stands for: the
/// engine's page as it is, the engine's error as a render error whose words
/// begin with `template engine: `.
pub fn page_from(outcome: Result<String, tera::Error>) -> (page: Result<String, WeatherError>)
    ensures
        match outcome {
            Ok(html) => page matches Ok(p) && p@ == html@,
            Err(_) => page matches Err(error) && error.kind == ErrorKind::Render
                && engine_failure_prefix().is_prefix_of(error.detail@),
        },
{
    match outcome {
        Ok(html) => Ok(html),
        Err(error) => {
            let mut detail = String::from_str("template engine: ");
            detail.append(error_text(&error).as_str());
            Err(WeatherError { kind: ErrorKind::Render, detail })
        },
    }
}

} // verus!
