//! Schedules and reminders.
use vstd::prelude::*;
use vstd::string::*;
use crate::clock;
use crate::clock::{
    is_zone, naive_moment, rfc3339_moment, utc_text, zone_text, Moment,
};
use crate::text;
use crate::text::{blank, joined, opt_text, pieces, texts, trimmed};
use crate::web::response;
use crate::web::response::{Sent, Verdict, WebAnswer};
use crate::web::url;
use crate::web::url::percent_encoded;
use crate::web::users;
use crate::web::users::named_items;

verus! {

#[derive(Debug, Clone)]
pub struct ScheduleView {
    pub id: String,
    pub name: String,
    pub prompt: String,
    pub cron_description: String,
    pub cron_expression: String,
    pub active: bool,
    pub one_shot: bool,
    pub last_run_at: String,
    pub next_run_at: String,
    pub pipe_names: Vec<String>,
    pub pipe_ids: Vec<String>,
    pub pipe_ids_csv: String,
    pub pipe_checks: Vec<PipeOptionChecked>,
}

/// A pipe, and whether a schedule writes to it.
#[derive(Debug, Clone)]
pub struct PipeOptionChecked {
    pub id: String,
    pub name: String,
    pub checked: bool,
}

#[derive(Debug, Clone)]
pub struct PipeOption {
    pub id: String,
    pub name: String,
}

#[derive(Debug)]
pub struct SchedulesQuery {
    pub error: Option<String>,
    pub success: Option<String>,
}

#[derive(Debug)]
pub struct CreateScheduleForm {
    pub name: String,
    pub prompt: String,
    pub when_text: String,
    pub pipe_ids: Option<String>,
}

#[derive(Debug)]
pub struct UpdateScheduleForm {
    pub name: String,
    pub prompt: String,
    pub when_text: String,
    pub pipe_ids: Option<String>,
}

#[derive(Debug)]
pub struct UpdatePipesForm {
    pub pipe_ids: Option<String>,
}

#[derive(Debug)]
pub struct TimezoneForm {
    pub timezone: String,
}

// ── Time zones ───────────────────────────────────────────────────────────────

/// The names and labels of the time zones that are offered.
pub open spec fn offered_timezones() -> Seq<(Seq<char>, Seq<char>)> {
    seq![
        ("UTC"@, "UTC"@),
        ("Europe/London"@, "London (GMT/BST)"@),
        ("Europe/Berlin"@, "Berlin (CET/CEST)"@),
        ("Europe/Paris"@, "Paris (CET/CEST)"@),
        ("Europe/Zurich"@, "Zurich (CET/CEST)"@),
        ("Europe/Vienna"@, "Vienna (CET/CEST)"@),
        ("Europe/Amsterdam"@, "Amsterdam (CET/CEST)"@),
        ("Europe/Rome"@, "Rome (CET/CEST)"@),
        ("Europe/Madrid"@, "Madrid (CET/CEST)"@),
        ("Europe/Stockholm"@, "Stockholm (CET/CEST)"@),
        ("Europe/Helsinki"@, "Helsinki (EET/EEST)"@),
        ("Europe/Athens"@, "Athens (EET/EEST)"@),
        ("Europe/Moscow"@, "Moscow (MSK)"@),
        ("America/New_York"@, "New York (EST/EDT)"@),
        ("America/Chicago"@, "Chicago (CST/CDT)"@),
        ("America/Denver"@, "Denver (MST/MDT)"@),
        ("America/Los_Angeles"@, "Los Angeles (PST/PDT)"@),
        ("America/Toronto"@, "Toronto (EST/EDT)"@),
        ("America/Sao_Paulo"@, "S\u{00e3}o Paulo (BRT)"@),
        ("Asia/Tokyo"@, "Tokyo (JST)"@),
        ("Asia/Shanghai"@, "Shanghai (CST)"@),
        ("Asia/Kolkata"@, "India (IST)"@),
        ("Asia/Dubai"@, "Dubai (GST)"@),
        ("Asia/Singapore"@, "Singapore (SGT)"@),
        ("Australia/Sydney"@, "Sydney (AEST/AEDT)"@),
        ("Pacific/Auckland"@, "Auckland (NZST/NZDT)"@),
    ]
}

/// The view of pairs of texts.
pub open spec fn str_pairs(v: Seq<(&'static str, &'static str)>) -> Seq<(Seq<char>, Seq<char>)> {
    v.map_values(|p: (&'static str, &'static str)| (p.0@, p.1@))
}

/// The names and labels of the time zones that are offered.
pub fn common_timezones() -> (r: Vec<(&'static str, &'static str)>)
    ensures
        str_pairs(r@) == offered_timezones(),
{
    let mut v: Vec<(&'static str, &'static str)> = Vec::new();
    v.push(("UTC", "UTC"));
    v.push(("Europe/London", "London (GMT/BST)"));
    v.push(("Europe/Berlin", "Berlin (CET/CEST)"));
    v.push(("Europe/Paris", "Paris (CET/CEST)"));
    v.push(("Europe/Zurich", "Zurich (CET/CEST)"));
    v.push(("Europe/Vienna", "Vienna (CET/CEST)"));
    v.push(("Europe/Amsterdam", "Amsterdam (CET/CEST)"));
    v.push(("Europe/Rome", "Rome (CET/CEST)"));
    v.push(("Europe/Madrid", "Madrid (CET/CEST)"));
    v.push(("Europe/Stockholm", "Stockholm (CET/CEST)"));
    v.push(("Europe/Helsinki", "Helsinki (EET/EEST)"));
    v.push(("Europe/Athens", "Athens (EET/EEST)"));
    v.push(("Europe/Moscow", "Moscow (MSK)"));
    v.push(("America/New_York", "New York (EST/EDT)"));
    v.push(("America/Chicago", "Chicago (CST/CDT)"));
    v.push(("America/Denver", "Denver (MST/MDT)"));
    v.push(("America/Los_Angeles", "Los Angeles (PST/PDT)"));
    v.push(("America/Toronto", "Toronto (EST/EDT)"));
    v.push(("America/Sao_Paulo", "S\u{00e3}o Paulo (BRT)"));
    v.push(("Asia/Tokyo", "Tokyo (JST)"));
    v.push(("Asia/Shanghai", "Shanghai (CST)"));
    v.push(("Asia/Kolkata", "India (IST)"));
    v.push(("Asia/Dubai", "Dubai (GST)"));
    v.push(("Asia/Singapore", "Singapore (SGT)"));
    v.push(("Australia/Sydney", "Sydney (AEST/AEDT)"));
    v.push(("Pacific/Auckland", "Auckland (NZST/NZDT)"));
    proof {
        assert(str_pairs(v@) =~= offered_timezones());
    }
    v
}

/// A stored moment of UTC as it is shown in a time zone: as it is where it is not
/// in the stored format, and marked as UTC where the zone is not known.
pub open spec fn shown_in_zone(value: Seq<char>, timezone: Seq<char>) -> Seq<char> {
    match naive_moment(value, "%Y-%m-%d %H:%M:%S"@) {
        Err(_) => value,
        Ok((secs, nanos)) => if is_zone(timezone) {
            zone_text(secs, nanos, timezone)
        } else {
            value + " UTC"@
        },
    }
}

/// A stored moment of UTC as it is shown in a time zone.
pub fn format_utc_for_timezone(value: &str, timezone: &str) -> (r: String)
    ensures
        r@ == shown_in_zone(value@, timezone@),
{
    match clock::parse_naive(value, "%Y-%m-%d %H:%M:%S") {
        Err(_) => value.to_string(),
        Ok(m) => {
            if clock::zone_is_known(timezone) {
                clock::format_in_zone(&m, timezone)
            } else {
                marked_utc(value)
            }
        },
    }
}

/// A moment that is shown in no time zone.
pub fn marked_utc(value: &str) -> (r: String)
    ensures
        r@ == value@ + " UTC"@,
{
    let mut out = value.to_string();
    out.append(" UTC");
    out
}

/// The time zone that a form sets, where there is such a zone.
pub fn user_set_timezone(base_path: &str, form: &TimezoneForm) -> (r: Verdict<String>)
    ensures
        if is_zone(form.timezone@) {
            r matches Verdict::Proceed(z) && z@ == form.timezone@
        } else {
            r.answers(Sent::Redirect(base_path@ + "/schedules?error=Invalid+timezone."@))
        },
{
    vet_timezone(base_path, form, clock::zone_is_known(form.timezone.as_str()))
}

/// The time zone that a form sets, by whether there is such a zone.
pub fn vet_timezone(base_path: &str, form: &TimezoneForm, known: bool) -> (r: Verdict<String>)
    ensures
        if known {
            r matches Verdict::Proceed(z) && z@ == form.timezone@
        } else {
            r.answers(Sent::Redirect(base_path@ + "/schedules?error=Invalid+timezone."@))
        },
{
    if known {
        Verdict::Proceed(form.timezone.clone())
    } else {
        Verdict::Answer(response::redirect(base_path, "/schedules?error=Invalid+timezone."))
    }
}

/// Where a time zone that was to be set leads.
pub fn timezone_saved(base_path: &str, done: bool) -> (r: WebAnswer)
    ensures
        r@ == Sent::Redirect(
            base_path@ + if done {
                "/schedules?success=Timezone+updated."@
            } else {
                "/schedules?error=Failed+to+save+timezone."@
            },
        ),
{
    if done {
        response::redirect(base_path, "/schedules?success=Timezone+updated.")
    } else {
        response::redirect(base_path, "/schedules?error=Failed+to+save+timezone.")
    }
}

// ── The list ─────────────────────────────────────────────────────────────────

/// A schedule as stored.
pub struct ScheduleRow {
    pub id: String,
    pub name: String,
    pub prompt: String,
    pub cron_description: String,
    pub cron_expression: String,
    pub active: bool,
    pub one_shot: bool,
    pub last_run_at: Option<String>,
    pub next_run_at: String,
    pub pipe_names: Vec<String>,
    pub pipe_ids: Vec<String>,
}

/// Whether a pipe is shown with whether a schedule writes to it.
pub open spec fn checked_for(pipe: PipeOption, pipe_ids: Seq<Seq<char>>, c: PipeOptionChecked) -> bool {
    &&& c.id@ == pipe.id@
    &&& c.name@ == pipe.name@
    &&& c.checked == pipe_ids.contains(pipe.id@)
}

/// The pipes, each with whether a schedule writes to it.
fn check_pipes(pipes: &Vec<PipeOption>, pipe_ids: &Vec<String>) -> (r: Vec<PipeOptionChecked>)
    ensures
        r@.len() == pipes@.len(),
        forall|i: int|
            0 <= i < r@.len() ==> checked_for(pipes@[i], texts(pipe_ids@), #[trigger] r@[i]),
{
    let mut out: Vec<PipeOptionChecked> = Vec::new();
    let mut i: usize = 0;
    while i < pipes.len()
        invariant
            i <= pipes@.len(),
            out@.len() == i,
            forall|k: int|
                0 <= k < i ==> checked_for(pipes@[k], texts(pipe_ids@), #[trigger] out@[k]),
        decreases pipes@.len() - i,
    {
        let checked = users::lists(pipe_ids, pipes[i].id.as_str());
        out.push(
            PipeOptionChecked { id: pipes[i].id.clone(), name: pipes[i].name.clone(), checked },
        );
        i += 1;
    }
    out
}

/// Whether `v` lists a stored schedule, with its times in a time zone.
pub open spec fn shows_schedule(
    v: ScheduleView,
    row: ScheduleRow,
    pipes: Seq<PipeOption>,
    timezone: Seq<char>,
) -> bool {
    &&& v.id == row.id
    &&& v.name == row.name
    &&& v.prompt == row.prompt
    &&& v.cron_description == row.cron_description
    &&& v.cron_expression == row.cron_expression
    &&& v.active == row.active
    &&& v.one_shot == row.one_shot
    &&& v.last_run_at@ == match opt_text(row.last_run_at) {
        Some(t) => shown_in_zone(t, timezone),
        None => "Never"@,
    }
    &&& v.next_run_at@ == shown_in_zone(row.next_run_at@, timezone)
    &&& v.pipe_names == row.pipe_names
    &&& v.pipe_ids == row.pipe_ids
    &&& v.pipe_ids_csv@ == joined(texts(row.pipe_ids@), ","@)
    &&& v.pipe_checks@.len() == pipes.len()
    &&& forall|i: int|
        0 <= i < v.pipe_checks@.len() ==> checked_for(
            pipes[i],
            texts(row.pipe_ids@),
            #[trigger] v.pipe_checks@[i],
        )
}

/// A schedule as listed, with its times in a time zone.
pub fn schedule_view(row: ScheduleRow, pipes: &Vec<PipeOption>, timezone: &str) -> (r: ScheduleView)
    ensures
        shows_schedule(r, row, pipes@, timezone@),
{
    let pipe_checks = check_pipes(pipes, &row.pipe_ids);
    let pipe_ids_csv = text::join(&row.pipe_ids, ",");
    let last_run_at = match &row.last_run_at {
        Some(t) => format_utc_for_timezone(t.as_str(), timezone),
        None => "Never".to_string(),
    };
    ScheduleView {
        id: row.id,
        name: row.name,
        prompt: row.prompt,
        cron_description: row.cron_description,
        cron_expression: row.cron_expression,
        active: row.active,
        one_shot: row.one_shot,
        last_run_at,
        next_run_at: format_utc_for_timezone(row.next_run_at.as_str(), timezone),
        pipe_names: row.pipe_names,
        pipe_ids: row.pipe_ids,
        pipe_ids_csv,
        pipe_checks,
    }
}

/// The page of the schedules.
#[derive(Debug)]
pub struct SchedulesPage {
    pub schedules: Vec<ScheduleView>,
    pub user_timezone: String,
    pub timezones: Vec<(&'static str, &'static str)>,
    pub error: Option<String>,
    pub success: Option<String>,
}

/// The page of the schedules. A user without a time zone has that of Greenwich.
pub fn schedules_index(
    timezone: Option<String>,
    rows: Vec<ScheduleRow>,
    pipes: &Vec<PipeOption>,
    query: SchedulesQuery,
) -> (r: SchedulesPage)
    ensures
        r.error == query.error,
        r.success == query.success,
        r.user_timezone@ == match opt_text(timezone) {
            Some(z) => z,
            None => "UTC"@,
        },
        r.schedules@.len() == rows@.len(),
        forall|i: int|
            0 <= i < rows@.len() ==> shows_schedule(
                #[trigger] r.schedules@[i],
                rows@[i],
                pipes@,
                r.user_timezone@,
            ),
        r.timezones@.map_values(|z: (&'static str, &'static str)| (z.0@, z.1@))
            == offered_timezones(),
{
    let zone = match timezone {
        Some(z) => z,
        None => "UTC".to_string(),
    };
    let mut out: Vec<ScheduleView> = Vec::new();
    for row in it: rows
        invariant
            it.seq() == rows@,
            out@.len() == it.index(),
            forall|k: int|
                0 <= k < out@.len() ==> shows_schedule(
                    #[trigger] out@[k],
                    rows@[k],
                    pipes@,
                    zone@,
                ),
    {
        out.push(schedule_view(row, pipes, zone.as_str()));
    }
    SchedulesPage {
        schedules: out,
        user_timezone: zone,
        timezones: common_timezones(),
        error: query.error,
        success: query.success,
    }
}

// ── Creating and changing ────────────────────────────────────────────────────

/// What a schedule is made of, but for its times.
pub struct ScheduleRequest {
    pub name: String,
    pub prompt: String,
    pub pipe_ids: Vec<String>,
}

/// The pipes that a form names.
pub open spec fn form_pipes(pipe_ids: Option<Seq<char>>) -> Seq<Seq<char>> {
    named_items(
        match pipe_ids {
            Some(p) => p,
            None => Seq::empty(),
        },
    )
}

/// The pipes that a form names.
pub fn schedules_update_pipes(form: &UpdatePipesForm) -> (r: Vec<String>)
    ensures
        texts(r@) == form_pipes(opt_text(form.pipe_ids)),
{
    pipes_of(&form.pipe_ids)
}

/// The pipes that a form names.
fn pipes_of(pipe_ids: &Option<String>) -> (r: Vec<String>)
    ensures
        texts(r@) == form_pipes(opt_text(*pipe_ids)),
{
    match pipe_ids {
        Some(p) => users::split_items(p.as_str()),
        None => {
            proof {
                reveal_strlit("");
                assert(""@ =~= Seq::<char>::empty());
            }
            users::split_items("")
        },
    }
}

/// What a form asks for, before its times are looked at: a name, something to do,
/// a time and at least one pipe have to be there.
pub open spec fn vetted(
    r: Verdict<ScheduleRequest>,
    base_path: Seq<char>,
    name: Seq<char>,
    prompt: Seq<char>,
    when_text: Seq<char>,
    pipe_ids: Option<Seq<char>>,
) -> bool {
    if blank(name) || blank(prompt) || blank(when_text) {
        r.answers(
            Sent::Redirect(
                base_path + "/schedules?error=Name%2C+prompt%2C+and+timing+are+required."@,
            ),
        )
    } else if form_pipes(pipe_ids).len() == 0 {
        r.answers(
            Sent::Redirect(base_path + "/schedules?error=Please+select+at+least+one+pipe."@),
        )
    } else {
        r matches Verdict::Proceed(s) && s.name@ == trimmed(name) && s.prompt@ == trimmed(prompt)
            && texts(s.pipe_ids@) == form_pipes(pipe_ids)
    }
}

/// What a form asks for, before its times are looked at.
fn vet(base_path: &str, name: &str, prompt: &str, when_text: &str, pipe_ids: &Option<String>) -> (r:
    Verdict<ScheduleRequest>)
    ensures
        vetted(r, base_path@, name@, prompt@, when_text@, opt_text(*pipe_ids)),
{
    if text::is_blank(name) || text::is_blank(prompt) || text::is_blank(when_text) {
        return Verdict::Answer(
            response::redirect(
                base_path,
                "/schedules?error=Name%2C+prompt%2C+and+timing+are+required.",
            ),
        );
    }
    let pipes = pipes_of(pipe_ids);
    proof {
        assert(texts(pipes@).len() == pipes@.len());
    }
    if pipes.len() == 0 {
        return Verdict::Answer(
            response::redirect(base_path, "/schedules?error=Please+select+at+least+one+pipe."),
        );
    }
    Verdict::Proceed(
        ScheduleRequest {
            name: text::trim(name).to_string(),
            prompt: text::trim(prompt).to_string(),
            pipe_ids: pipes,
        },
    )
}

/// The schedule that a form asks for, before its times are looked at.
pub fn schedules_create(base_path: &str, form: &CreateScheduleForm) -> (r: Verdict<ScheduleRequest>)
    ensures
        vetted(
            r,
            base_path@,
            form.name@,
            form.prompt@,
            form.when_text@,
            opt_text(form.pipe_ids),
        ),
{
    vet(
        base_path,
        form.name.as_str(),
        form.prompt.as_str(),
        form.when_text.as_str(),
        &form.pipe_ids,
    )
}

/// What a form changes a schedule to, before its times are looked at.
pub fn schedules_update(base_path: &str, form: &UpdateScheduleForm) -> (r: Verdict<ScheduleRequest>)
    ensures
        vetted(
            r,
            base_path@,
            form.name@,
            form.prompt@,
            form.when_text@,
            opt_text(form.pipe_ids),
        ),
{
    vet(
        base_path,
        form.name.as_str(),
        form.prompt.as_str(),
        form.when_text.as_str(),
        &form.pipe_ids,
    )
}

/// Back to the schedules, with a message as the error.
pub open spec fn trouble(base_path: Seq<char>, message: Seq<char>) -> Seq<char> {
    base_path + "/schedules?error="@ + percent_encoded(message)
}

/// Back to the schedules, with a message as the error.
pub fn schedule_trouble(base_path: &str, message: &str) -> (r: WebAnswer)
    ensures
        r@ == Sent::Redirect(trouble(base_path@, message@)),
{
    let m = url::encode(message);
    response::redirect_with(base_path, "/schedules?error=", m.as_str())
}

/// What a language model is asked to understand words as times with.
#[derive(Debug)]
pub struct TimingRequest {
    pub when_text: String,
    /// Now, in UTC.
    pub now: String,
    pub timezone: String,
}

/// What a language model is asked to understand the words of a form as times with. A user
/// without a time zone has that of Greenwich.
pub fn timing_request(when_text: &str, now: &Moment, timezone: Option<String>) -> (r: TimingRequest)
    requires
        now.dated(0),
    ensures
        r.when_text@ == when_text@,
        r.now@ == utc_text(now.secs, now.nanos, "%Y-%m-%dT%H:%M:%SZ"@),
        r.timezone@ == match opt_text(timezone) {
            Some(z) => z,
            None => "UTC"@,
        },
{
    TimingRequest {
        when_text: when_text.to_string(),
        now: clock::format_utc(now, "%Y-%m-%dT%H:%M:%SZ"),
        timezone: match timezone {
            Some(z) => z,
            None => "UTC".to_string(),
        },
    }
}

/// The times that words were understood as.
pub enum TimingResult {
    Recurring { cron_expression: String, description: String },
    OneShot { fire_at: String, description: String },
}

/// When a schedule runs: again and again, or at one moment.
pub enum Timing {
    Recurring { cron_expression: String, description: String },
    OneShot { fire_at: Moment, description: String },
}

/// The moment of a reminder: as RFC 3339 writes it, else a date of UTC without a
/// zone, or the error of the latter.
pub open spec fn fire_moment(fire_at: Seq<char>) -> Result<(i64, u32), Seq<char>> {
    match rfc3339_moment(fire_at) {
        Some(m) => Ok(m),
        None => naive_moment(fire_at, "%Y-%m-%dT%H:%M:%S"@),
    }
}

/// The moment of a reminder.
pub fn parse_fire_at(fire_at: &str) -> (r: Result<Moment, String>)
    ensures
        clock::moment_result(r) == fire_moment(fire_at@),
{
    match clock::parse_rfc3339(fire_at) {
        Some(m) => Ok(m),
        None => clock::parse_naive(fire_at, "%Y-%m-%dT%H:%M:%S"),
    }
}

/// What is said where words could not be understood as times.
pub open spec fn misunderstood(e: Seq<char>) -> Seq<char> {
    "Couldn't understand the timing. Try something like \"every day at 8am\" or \"next Sunday at 10am\".\n"@
        + e
}

/// What is said where words could not be understood as times.
fn say_misunderstood(e: &str) -> (r: String)
    ensures
        r@ == misunderstood(e@),
{
    let mut m = "Couldn't understand the timing. Try something like \"every day at 8am\" or \"next Sunday at 10am\".\n".to_string();
    m.append(e);
    m
}

/// When a new schedule runs, from what its words were understood as.
pub fn timing_to_create(base_path: &str, understood: Result<TimingResult, String>) -> (r: Verdict<
    Timing,
>)
    ensures
        match understood {
            Err(e) => r.answers(Sent::Redirect(trouble(base_path@, misunderstood(e@)))),
            Ok(TimingResult::Recurring { cron_expression, description }) => r matches Verdict::Proceed(
                Timing::Recurring { cron_expression: c, description: d },
            ) && c == cron_expression && d == description,
            Ok(TimingResult::OneShot { fire_at, description }) => match fire_moment(fire_at@) {
                Ok(m) => r matches Verdict::Proceed(Timing::OneShot { fire_at: f, description: d })
                    && (f.secs, f.nanos) == m && d == description,
                Err(e) => r.answers(
                    Sent::Redirect(
                        trouble(base_path@, "Couldn't understand the timing: "@ + e),
                    ),
                ),
            },
        },
{
    match understood {
        Err(e) => {
            let m = say_misunderstood(e.as_str());
            Verdict::Answer(schedule_trouble(base_path, m.as_str()))
        },
        Ok(TimingResult::Recurring { cron_expression, description }) => Verdict::Proceed(
            Timing::Recurring { cron_expression, description },
        ),
        Ok(TimingResult::OneShot { fire_at, description }) => {
            let parsed = parse_fire_at(fire_at.as_str());
            match parsed {
                Ok(m) => Verdict::Proceed(Timing::OneShot { fire_at: m, description }),
                Err(e) => {
                    let mut m = "Couldn't understand the timing: ".to_string();
                    m.append(e.as_str());
                    Verdict::Answer(schedule_trouble(base_path, m.as_str()))
                },
            }
        },
    }
}

/// When a schedule that was changed runs: only again and again.
pub fn timing_to_update(base_path: &str, understood: Result<TimingResult, String>) -> (r: Verdict<
    (String, String),
>)
    ensures
        match understood {
            Err(e) => r.answers(Sent::Redirect(trouble(base_path@, misunderstood(e@)))),
            Ok(TimingResult::Recurring { cron_expression, description }) => r matches Verdict::Proceed(
                p,
            ) && p == (cron_expression, description),
            Ok(TimingResult::OneShot { fire_at, description }) => r.answers(
                Sent::Redirect(
                    trouble(
                        base_path@,
                        "Editing only supports recurring schedules. Delete and re-create for one-time reminders."@,
                    ),
                ),
            ),
        },
{
    match understood {
        Err(e) => {
            let m = say_misunderstood(e.as_str());
            Verdict::Answer(schedule_trouble(base_path, m.as_str()))
        },
        Ok(TimingResult::Recurring { cron_expression, description }) => Verdict::Proceed(
            (cron_expression, description),
        ),
        Ok(TimingResult::OneShot { .. }) => Verdict::Answer(
            schedule_trouble(
                base_path,
                "Editing only supports recurring schedules. Delete and re-create for one-time reminders.",
            ),
        ),
    }
}

/// Where something that was to be created leads.
pub fn schedule_created(base_path: &str, reminder: bool, done: bool) -> (r: WebAnswer)
    ensures
        r@ == Sent::Redirect(
            base_path@ + match (reminder, done) {
                (false, true) => "/schedules?success=Schedule+created."@,
                (false, false) => "/schedules?error=Failed+to+create+schedule.+Please+try+again."@,
                (true, true) => "/schedules?success=Reminder+created."@,
                (true, false) => "/schedules?error=Failed+to+create+reminder.+Please+try+again."@,
            },
        ),
{
    let to = match (reminder, done) {
        (false, true) => "/schedules?success=Schedule+created.",
        (false, false) => "/schedules?error=Failed+to+create+schedule.+Please+try+again.",
        (true, true) => "/schedules?success=Reminder+created.",
        (true, false) => "/schedules?error=Failed+to+create+reminder.+Please+try+again.",
    };
    response::redirect(base_path, to)
}

/// Where a schedule that was to be changed leads.
pub fn schedule_updated(base_path: &str, outcome: &Result<bool, String>) -> (r: WebAnswer)
    ensures
        r@ == Sent::Redirect(
            base_path@ + match outcome {
                Ok(true) => "/schedules?success=Schedule+updated."@,
                Ok(false) => "/schedules?error=Schedule+not+found."@,
                Err(_) => "/schedules?error=Failed+to+update+schedule.+Please+try+again."@,
            },
        ),
{
    let to = match outcome {
        Ok(true) => "/schedules?success=Schedule+updated.",
        Ok(false) => "/schedules?error=Schedule+not+found.",
        Err(_) => "/schedules?error=Failed+to+update+schedule.+Please+try+again.",
    };
    response::redirect(base_path, to)
}

/// The answer once the pipes of a schedule were to be changed.
pub fn pipes_updated(outcome: &Result<bool, String>) -> (r: WebAnswer)
    ensures
        r@ == match outcome {
            Ok(true) => Sent::Html(""@),
            Ok(false) => Sent::Status(response::NOT_FOUND),
            Err(_) => Sent::Status(response::INTERNAL_SERVER_ERROR),
        },
{
    response::cleared(outcome)
}

/// The badge that shows whether a schedule is on.
pub open spec fn badge_text(active: bool) -> Seq<char> {
    if active {
        "<span class=\"inline-flex items-center gap-1 px-2 py-0.5 rounded-full text-[10px] font-medium bg-emerald-500/10 text-emerald-400 border border-emerald-500/20\"><span class=\"w-1 h-1 rounded-full bg-emerald-400\"></span><span data-i18n=\"schedules.on\">On</span></span>"@
    } else {
        "<span class=\"inline-flex items-center px-2 py-0.5 rounded-full text-[10px] font-medium bg-rosie/10 text-rosie border border-rosie/20\"><span data-i18n=\"schedules.off\">Off</span></span>"@
    }
}

/// The answer once a schedule was to be switched: the badge for what it is now, off where
/// that cannot be read.
pub fn schedules_toggle(outcome: &Result<bool, String>, active: Option<i64>) -> (r: WebAnswer)
    ensures
        r@ == match outcome {
            Ok(true) => Sent::Html(
                badge_text(
                    match active {
                        Some(a) => a != 0,
                        None => false,
                    },
                ),
            ),
            Ok(false) => Sent::Status(response::NOT_FOUND),
            Err(_) => Sent::Status(response::INTERNAL_SERVER_ERROR),
        },
{
    match outcome {
        Ok(true) => {
            let on = match active {
                Some(a) => a != 0,
                None => false,
            };
            response::html(badge(on))
        },
        Ok(false) => WebAnswer::Status(response::NOT_FOUND),
        Err(_) => WebAnswer::Status(response::INTERNAL_SERVER_ERROR),
    }
}

/// The badge that shows whether a schedule is on.
fn badge(active: bool) -> (r: &'static str)
    ensures
        r@ == badge_text(active),
{
    if active {
        "<span class=\"inline-flex items-center gap-1 px-2 py-0.5 rounded-full text-[10px] font-medium bg-emerald-500/10 text-emerald-400 border border-emerald-500/20\"><span class=\"w-1 h-1 rounded-full bg-emerald-400\"></span><span data-i18n=\"schedules.on\">On</span></span>"
    } else {
        "<span class=\"inline-flex items-center px-2 py-0.5 rounded-full text-[10px] font-medium bg-rosie/10 text-rosie border border-rosie/20\"><span data-i18n=\"schedules.off\">Off</span></span>"
    }
}

/// What is said where no language model could be had.
pub fn no_provider(configured: bool, error: &str) -> (r: String)
    ensures
        r@ == (if configured {
            "Couldn't load LLM provider: "@
        } else {
            "No LLM provider configured: "@
        }) + error@,
{
    let mut m = (if configured {
        "Couldn't load LLM provider: "
    } else {
        "No LLM provider configured: "
    }).to_string();
    m.append(error);
    m
}

// ── Laws ─────────────────────────────────────────────────────────────────────

/// A form is accepted exactly where it has a name, something to do and a time that are more
/// than white space, and names a pipe. The schedule is then called as the form calls it and
/// does what the form says is to be done, both without white space around them, and writes to
/// the pipes of the form.
pub proof fn law_schedule_is_what_its_form_says(
    base_path: &str,
    form: CreateScheduleForm,
    r: Verdict<ScheduleRequest>,
)
    requires
        call_ensures(schedules_create, (base_path, &form), r),
    ensures
        r is Proceed <==> {
            &&& trimmed(form.name@).len() > 0
            &&& trimmed(form.prompt@).len() > 0
            &&& trimmed(form.when_text@).len() > 0
            &&& form.pipe_ids is Some && named_items(form.pipe_ids->0@).len() > 0
        },
        r matches Verdict::Proceed(s) ==> s.name@ == trimmed(form.name@) && s.prompt@ == trimmed(
            form.prompt@,
        ) && texts(s.pipe_ids@) == named_items(form.pipe_ids->0@),
{
    text::lemma_blank(form.name@);
    text::lemma_blank(form.prompt@);
    text::lemma_blank(form.when_text@);
    lemma_no_items();
}

/// No text names no item.
proof fn lemma_no_items()
    ensures
        named_items(Seq::<char>::empty()).len() == 0,
{
    let none = Seq::<char>::empty();
    let f = |p: Seq<char>|
        if trimmed(p).len() == 0 {
            None
        } else {
            Some(trimmed(p))
        };
    if named_items(none).len() > 0 {
        let x = named_items(none)[0];
        assert(named_items(none).contains(x));
        pieces(none, ',').lemma_filter_map_contains(f, x);
        let p = choose|p: Seq<char>| pieces(none, ',').contains(p) && f(p) == Some(x);
        assert(p =~= none);
        text::lemma_trimmed_len(p);
    }
}

/// What a changed schedule is comes from its form just as what a new one is.
pub proof fn law_changed_schedule_is_what_its_form_says(
    base_path: &str,
    form: UpdateScheduleForm,
    r: Verdict<ScheduleRequest>,
)
    requires
        call_ensures(schedules_update, (base_path, &form), r),
    ensures
        r is Proceed <==> {
            &&& trimmed(form.name@).len() > 0
            &&& trimmed(form.prompt@).len() > 0
            &&& trimmed(form.when_text@).len() > 0
            &&& form.pipe_ids is Some && named_items(form.pipe_ids->0@).len() > 0
        },
        r matches Verdict::Proceed(s) ==> s.name@ == trimmed(form.name@) && s.prompt@ == trimmed(
            form.prompt@,
        ) && texts(s.pipe_ids@) == named_items(form.pipe_ids->0@),
{
    text::lemma_blank(form.name@);
    text::lemma_blank(form.prompt@);
    text::lemma_blank(form.when_text@);
    lemma_no_items();
}

/// What a schedule is called has no bearing on what it does: two forms that say the same is to
/// be done give schedules that do the same, and two that say otherwise give schedules that do
/// otherwise; and so for what they are called.
pub proof fn law_prompt_and_name_are_apart(
    base_path: &str,
    one: CreateScheduleForm,
    other: CreateScheduleForm,
    s: ScheduleRequest,
    t: ScheduleRequest,
)
    requires
        call_ensures(schedules_create, (base_path, &one), Verdict::Proceed(s)),
        call_ensures(schedules_create, (base_path, &other), Verdict::Proceed(t)),
    ensures
        one.prompt@ == other.prompt@ ==> s.prompt@ == t.prompt@,
        trimmed(one.prompt@) != trimmed(other.prompt@) ==> s.prompt@ != t.prompt@,
        one.name@ == other.name@ ==> s.name@ == t.name@,
        trimmed(one.name@) != trimmed(other.name@) ==> s.name@ != t.name@,
{
}

/// The page lists each schedule as it is stored, in its place: with its own words and times, told in
/// the user's time zone, and with a tick at each pipe that it writes to and at no other.
pub proof fn law_schedules_are_listed_as_stored(
    timezone: Option<String>,
    rows: Vec<ScheduleRow>,
    pipes: Vec<PipeOption>,
    query: SchedulesQuery,
    page: SchedulesPage,
    i: int,
    k: int,
)
    requires
        call_ensures(schedules_index, (timezone, rows, &pipes, query), page),
        0 <= i < rows@.len(),
    ensures
        page.error == query.error && page.success == query.success,
        timezone is Some ==> page.user_timezone@ == timezone->0@,
        timezone is None ==> page.user_timezone@ == "UTC"@,
        page.schedules@.len() == rows@.len(),
        ({
            let v = page.schedules@[i];
            let row = rows@[i];
            &&& v.id@ == row.id@ && v.name@ == row.name@ && v.prompt@ == row.prompt@
            &&& v.cron_description@ == row.cron_description@ && v.cron_expression@
                == row.cron_expression@
            &&& v.active == row.active && v.one_shot == row.one_shot
            &&& v.pipe_ids@ == row.pipe_ids@ && v.pipe_names@ == row.pipe_names@
            &&& row.last_run_at is None ==> v.last_run_at@ == "Never"@
            &&& v.pipe_checks@.len() == pipes@.len()
            &&& 0 <= k < pipes@.len() ==> v.pipe_checks@[k].id@ == pipes@[k].id@
                && v.pipe_checks@[k].name@ == pipes@[k].name@ && (v.pipe_checks@[k].checked
                <==> exists|j: int|
                0 <= j < row.pipe_ids@.len() && (#[trigger] row.pipe_ids@[j])@ == pipes@[k].id@)
            &&& naive_moment(row.next_run_at@, "%Y-%m-%d %H:%M:%S"@) matches Ok((secs, nanos))
                ==> is_zone(page.user_timezone@) ==> v.next_run_at@ == zone_text(
                secs,
                nanos,
                page.user_timezone@,
            )
        }),
{
    let v = page.schedules@[i];
    let row = rows@[i];
    assert(shows_schedule(v, row, pipes@, page.user_timezone@));
    if 0 <= k < pipes@.len() {
        let ids = texts(row.pipe_ids@);
        assert(checked_for(pipes@[k], ids, v.pipe_checks@[k]));
        if ids.contains(pipes@[k].id@) {
            let j = choose|j: int| 0 <= j < ids.len() && ids[j] == pipes@[k].id@;
            assert(ids[j] == row.pipe_ids@[j]@);
        }
        if exists|j: int|
            0 <= j < row.pipe_ids@.len() && (#[trigger] row.pipe_ids@[j])@ == pipes@[k].id@ {
            let j = choose|j: int|
                0 <= j < row.pipe_ids@.len() && (#[trigger] row.pipe_ids@[j])@ == pipes@[k].id@;
            assert(ids[j] == row.pipe_ids@[j]@);
        }
    }
}

/// A time of UTC is told in the user's zone where that is one, else as UTC; what is no time is told as
/// it is.
pub proof fn law_times_are_told_in_the_users_zone(value: &str, timezone: &str, r: String)
    requires
        call_ensures(format_utc_for_timezone, (value, timezone), r),
    ensures
        naive_moment(value@, "%Y-%m-%d %H:%M:%S"@) is Err ==> r@ == value@,
        naive_moment(value@, "%Y-%m-%d %H:%M:%S"@) matches Ok((secs, nanos)) ==> if is_zone(
            timezone@,
        ) {
            r@ == zone_text(secs, nanos, timezone@)
        } else {
            r@ == value@ + " UTC"@
        },
{
}

/// What was understood of a timing is what is scheduled: what recurs recurs by its own expression, and
/// what happens once happens at its own moment. Only what recurs can be changed to.
pub proof fn law_timing_is_what_was_understood(
    base_path: &str,
    understood: Result<TimingResult, String>,
    created: Verdict<Timing>,
    updated: Verdict<(String, String)>,
)
    requires
        call_ensures(timing_to_create, (base_path, understood), created),
        call_ensures(timing_to_update, (base_path, understood), updated),
    ensures
        understood is Err ==> created is Answer && updated is Answer,
        understood matches Ok(TimingResult::Recurring { cron_expression, description }) ==> {
            &&& created matches Verdict::Proceed(
                Timing::Recurring { cron_expression: c, description: d },
            ) && c@ == cron_expression@ && d@ == description@
            &&& updated matches Verdict::Proceed(p) && p.0@ == cron_expression@ && p.1@
                == description@
        },
        understood matches Ok(TimingResult::OneShot { fire_at, description }) ==> {
            &&& updated is Answer
            &&& created is Proceed <==> clock::rfc3339_moment(fire_at@) is Some || naive_moment(
                fire_at@,
                "%Y-%m-%dT%H:%M:%S"@,
            ) is Ok
            &&& created matches Verdict::Proceed(t) ==> {
                &&& t matches Timing::OneShot { fire_at: f, description: d } && d@ == description@
                    && (clock::rfc3339_moment(fire_at@) is Some ==> clock::rfc3339_moment(fire_at@)
                    == Some((f.secs, f.nanos)))
            }
        },
{
}

/// A schedule that was switched is shown as it now is; one that is not there and one that could not be
/// switched are told apart.
pub proof fn law_switched_schedule_is_shown(
    outcome: Result<bool, String>,
    active: Option<i64>,
    on: WebAnswer,
    r: WebAnswer,
)
    requires
        call_ensures(schedules_toggle, (&Ok::<bool, String>(true), Some(1i64)), on),
        call_ensures(schedules_toggle, (&outcome, active), r),
    ensures
        r@ == Sent::Status(404) <==> outcome == Ok::<bool, String>(false),
        r@ == Sent::Status(500) <==> outcome is Err,
        outcome == Ok::<bool, String>(true) && active is Some && active->0 != 0 ==> r@ == on@,
        r is Html <==> outcome == Ok::<bool, String>(true),
{
}

} // verus!
