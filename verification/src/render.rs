//! The two renderers. The console renderer lays the report out in lines of
//! text. The template renderer hands the report to a template engine: here
//! it makes the context that the engine is to run with, and the caller runs
//! the engine.

use crate::error::{ErrorKind, WeatherError};
use crate::present::{
    daily_views, hourly_views, DailyEntry, DailyEntryView, HourlyEntry, HourlyEntryView, Report,
    ReportView,
};
use crate::template::{
    context_tables, context_texts, has_template, missing_template_detail, report_tables,
    report_texts, template_context,
};
use crate::text::optional_view;
use vstd::prelude::*;
use vstd::string::*;

verus! {

/// A way to show a report.
#[derive(Debug, Clone)]
pub enum Renderer {
    /// Lines of text under a heading that names the place.
    Console { label: String },
    /// The template `name` among `templates`, each a name with its text.
    Template { templates: Vec<(String, String)>, name: String },
}

/// What a renderer has made of a report.
#[derive(Debug)]
pub enum Prepared {
    /// The text to show: nothing is left to do.
    Text(String),
    /// The context with which the template engine is to render the
    /// renderer's template.
    Engine(tera::Context),
}

/// A labelled line, or nothing where the value is missing.
pub open spec fn optional_line(label: Seq<char>, value: Option<Seq<char>>) -> Seq<char> {
    match value {
        Some(text) => label + text + "\n"@,
        None => Seq::empty(),
    }
}

/// The line of one day: date, lowest and highest temperature, description.
pub open spec fn daily_line(line: DailyEntryView) -> Seq<char> {
    line.date + ": "@ + line.min + " to "@ + line.max + ", "@ + line.description + "\n"@
}

/// The line of one hour: time, temperature, description.
pub open spec fn hourly_line(line: HourlyEntryView) -> Seq<char> {
    line.time + ": "@ + line.temp + ", "@ + line.description + "\n"@
}

/// The lines of the days, in order.
pub open spec fn daily_block(lines: Seq<DailyEntryView>) -> Seq<char>
    decreases lines.len(),
{
    if lines.len() == 0 {
        Seq::empty()
    } else {
        daily_block(lines.drop_last()) + daily_line(lines.last())
    }
}

/// The lines of the hours, in order.
pub open spec fn hourly_block(lines: Seq<HourlyEntryView>) -> Seq<char>
    decreases lines.len(),
{
    if lines.len() == 0 {
        Seq::empty()
    } else {
        hourly_block(lines.drop_last()) + hourly_line(lines.last())
    }
}

/// The heading of the console layout: the place, the current temperature,
/// and sunrise and sunset where they can be written.
pub open spec fn console_head(label: Seq<char>, report: ReportView) -> Seq<char> {
    "Weather for "@ + label + "\n"@ + "Current temperature: "@ + report.current_temp + "\n"@
        + optional_line("Sunrise: "@, report.sunrise) + optional_line("Sunset: "@, report.sunset)
}

/// The console layout: the heading, an empty line, the daily forecast under
/// its title, an empty line, the hourly forecast under its title. Every line
/// ends with a line feed.
pub open spec fn console_text(label: Seq<char>, report: ReportView) -> Seq<char> {
    console_head(label, report) + "\n"@ + "Daily Forecasts\n"@ + daily_block(report.daily) + "\n"@
        + "Hourly Forecasts\n"@ + hourly_block(report.hourly)
}

/// Writes a labelled line where the value is there.
fn push_optional_line(text: &mut String, label: &str, value: &Option<String>)
    ensures
        final(text)@ == old(text)@ + optional_line(label@, optional_view(*value)),
{
    if let Some(v) = value {
        text.append(label);
        text.append(v.as_str());
        text.append("\n");
    }
}

/// Writes the line of one day.
fn push_daily_line(text: &mut String, line: &DailyEntry)
    ensures
        final(text)@ == old(text)@ + daily_line(line@),
{
    text.append(line.date.as_str());
    text.append(": ");
    text.append(line.min.as_str());
    text.append(" to ");
    text.append(line.max.as_str());
    text.append(", ");
    text.append(line.description.as_str());
    text.append("\n");
}

/// Writes the line of one hour.
fn push_hourly_line(text: &mut String, line: &HourlyEntry)
    ensures
        final(text)@ == old(text)@ + hourly_line(line@),
{
    text.append(line.time.as_str());
    text.append(": ");
    text.append(line.temp.as_str());
    text.append(", ");
    text.append(line.description.as_str());
    text.append("\n");
}

/// The console layout of a report.
pub fn render_console(label: &str, report: &Report) -> (text: String)
    ensures
        text@ == console_text(label@, report@),
{
    let mut text = String::from_str("Weather for ");
    text.append(label);
    text.append("\n");
    text.append("Current temperature: ");
    text.append(report.current_temp.as_str());
    text.append("\n");
    push_optional_line(&mut text, "Sunrise: ", &report.sunrise);
    push_optional_line(&mut text, "Sunset: ", &report.sunset);
    text.append("\n");
    text.append("Daily Forecasts\n");
    let ghost head = text@;
    let mut i: usize = 0;
    while i < report.daily.len()
        invariant
            i <= report.daily@.len(),
            text@ == head + daily_block(daily_views(report.daily@).take(i as int)),
        decreases report.daily@.len() - i,
    {
        let ghost before = daily_views(report.daily@).take(i as int);
        let ghost after = daily_views(report.daily@).take(i + 1);
        push_daily_line(&mut text, &report.daily[i]);
        proof {
            assert(after.drop_last() =~= before);
        }
        i += 1;
    }
    assert(daily_views(report.daily@).take(i as int) =~= report@.daily);
    text.append("\n");
    text.append("Hourly Forecasts\n");
    let ghost middle = text@;
    let mut j: usize = 0;
    while j < report.hourly.len()
        invariant
            j <= report.hourly@.len(),
            text@ == middle + hourly_block(hourly_views(report.hourly@).take(j as int)),
        decreases report.hourly@.len() - j,
    {
        let ghost before = hourly_views(report.hourly@).take(j as int);
        let ghost after = hourly_views(report.hourly@).take(j + 1);
        push_hourly_line(&mut text, &report.hourly[j]);
        proof {
            assert(after.drop_last() =~= before);
        }
        j += 1;
    }
    assert(hourly_views(report.hourly@).take(j as int) =~= report@.hourly);
    text
}

impl Renderer {
    /// Makes of the report what the renderer can make without the template
    /// engine. The console renderer needs no template and always gives its
    /// layout. The template renderer gives the context for its template, or
    /// a render error where the template is missing.
    pub fn prepare(&self, report: &Report) -> (prepared: Result<Prepared, WeatherError>)
        ensures
            match *self {
                Renderer::Console { label } => prepared matches Ok(Prepared::Text(text)) && text@
                    == console_text(label@, report@),
                Renderer::Template { templates, name } => if has_template(templates@, name@) {
                    prepared matches Ok(Prepared::Engine(context)) && context_texts(context)
                        == report_texts(report@) && context_tables(context) == report_tables(
                        report@,
                    )
                } else {
                    prepared matches Err(error) && error.kind == ErrorKind::Render
                        && error.detail@ == missing_template_detail(name@)
                },
            },
    {
        match self {
            Renderer::Console { label } => Ok(
                Prepared::Text(render_console(label.as_str(), report)),
            ),
            Renderer::Template { templates, name } => match template_context(
                templates,
                name.as_str(),
                report,
            ) {
                Ok(context) => Ok(Prepared::Engine(context)),
                Err(error) => Err(error),
            },
        }
    }
}

} // verus!
