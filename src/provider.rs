use crate::dictionary::Dictionary;
use crate::text::{
    chars_of, check_word, decimal, is_word, push_decimal, push_str, push_two_digits, string_of,
    two_digits,
};
use rand::Rng;
use vstd::prelude::*;

verus! {

/// The answer of a game, with the puzzle number where it came from a dated puzzle.
#[derive(Debug, Clone)]
pub struct Solution {
    pub wordle_number: Option<u64>,
    pub answer: String,
}

/// A day of the proleptic Gregorian calendar.
#[derive(Debug, Clone, Copy, PartialEq, Eq, Structural)]
pub struct CalendarDate {
    year: i32,
    month: u8,
    day: u8,
}

/// How the answer is chosen.
#[derive(Debug, Clone, Copy, PartialEq, Eq, Structural)]
pub enum AppMode {
    /// A random word of the answer list.
    Random,
    /// Today's puzzle.
    Today(CalendarDate),
    /// The puzzle of the given day.
    Date(CalendarDate),
}

/// Why no answer could be had.
#[derive(Debug, Clone, Copy, PartialEq, Eq, Structural)]
pub enum ProviderError {
    /// The date lies before the first puzzle, 2021-06-19.
    BeforeFirstPuzzle,
    /// The answer list is empty.
    NoAnswers,
    /// The response is not JSON.
    MalformedResponse,
    /// The response has no puzzle number.
    MissingNumber,
    /// The response has no solution.
    MissingSolution,
    /// The answer is not five lowercase letters.
    InvalidAnswer,
}

/// What to do to obtain the answer.
#[derive(Debug, Clone)]
pub enum AnswerRequest {
    /// The answer is known.
    Ready(Solution),
    /// The answer must be fetched from this address.
    Fetch(String),
}

pub open spec fn is_leap(y: int) -> bool {
    (y % 4 == 0 && y % 100 != 0) || y % 400 == 0
}

/// The number of days in month `m` (1 to 12) of year `y`.
pub open spec fn month_length(y: int, m: int) -> int {
    if m == 2 {
        if is_leap(y) {
            29
        } else {
            28
        }
    } else if m == 4 || m == 6 || m == 9 || m == 11 {
        30
    } else {
        31
    }
}

/// A day that the calendar has, in the years -9999 to 9999.
pub open spec fn valid_date(y: int, m: int, d: int) -> bool {
    -9999 <= y <= 9999 && 1 <= m <= 12 && 1 <= d <= month_length(y, m)
}

/// Relies on `time::Date::from_calendar_date` (with `time::Month::try_from` to
/// convert the month number): it accepts exactly the days that the calendar has.
#[verifier::external_body]
fn calendar_date_exists(year: i32, month: u8, day: u8) -> (r: bool)
    requires
        -9999 <= year <= 9999,
    ensures
        r == valid_date(year as int, month as int, day as int),
{
    match time::Month::try_from(month) {
        Ok(m) => time::Date::from_calendar_date(year, m, day).is_ok(),
        Err(_) => false,
    }
}

/// Relies on `rand::Rng::gen_range` on the thread-local generator: a number below `n`.
#[verifier::external_body]
fn random_index(n: usize) -> (r: usize)
    requires
        n > 0,
    ensures
        r < n,
{
    rand::thread_rng().gen_range(0..n)
}

/// `(y1, m1, d1)` comes before `(y2, m2, d2)`.
pub open spec fn date_before(y1: int, m1: int, d1: int, y2: int, m2: int, d2: int) -> bool {
    y1 < y2 || (y1 == y2 && (m1 < m2 || (m1 == m2 && d1 < d2)))
}

impl CalendarDate {
    pub closed spec fn year_of(&self) -> int {
        self.year as int
    }

    pub closed spec fn month_of(&self) -> int {
        self.month as int
    }

    pub closed spec fn day_of(&self) -> int {
        self.day as int
    }

    pub open spec fn wf(&self) -> bool {
        valid_date(self.year_of(), self.month_of(), self.day_of())
    }

    /// The given day, if the calendar has it.
    pub fn new(year: i32, month: u8, day: u8) -> (r: Option<CalendarDate>)
        ensures
            r is Some <==> valid_date(year as int, month as int, day as int),
            r matches Some(d) ==> d.wf() && d.year_of() == year && d.month_of() == month
                && d.day_of() == day,
    {
        if year < -9999 || year > 9999 {
            return None;
        }
        if calendar_date_exists(year, month, day) {
            Some(CalendarDate { year, month, day })
        } else {
            None
        }
    }

    pub fn year(&self) -> (r: i32)
        ensures
            r == self.year_of(),
    {
        self.year
    }

    pub fn month(&self) -> (r: u8)
        ensures
            r == self.month_of(),
    {
        self.month
    }

    pub fn day(&self) -> (r: u8)
        ensures
            r == self.day_of(),
    {
        self.day
    }

    /// `true` when `self` comes before `other`.
    pub fn is_before(&self, other: &CalendarDate) -> (r: bool)
        ensures
            r == date_before(
                self.year_of(),
                self.month_of(),
                self.day_of(),
                other.year_of(),
                other.month_of(),
                other.day_of(),
            ),
    {
        self.year < other.year || (self.year == other.year && (self.month < other.month || (
        self.month == other.month && self.day < other.day)))
    }
}

/// The address of the puzzle of day `(y, m, d)`.
pub open spec fn puzzle_url(y: nat, m: nat, d: nat) -> Seq<char> {
    "https://www.nytimes.com/svc/wordle/v2/"@ + decimal(y) + seq!['-'] + two_digits(m) + seq!['-']
        + two_digits(d) + ".json"@
}

/// The address of the puzzle of `date`.
pub fn url_for_date(date: &CalendarDate) -> (r: String)
    requires
        date.year_of() >= 0,
    ensures
        r@ == puzzle_url(date.year_of() as nat, date.month_of() as nat, date.day_of() as nat),
{
    let mut out: Vec<char> = Vec::new();
    push_str(&mut out, "https://www.nytimes.com/svc/wordle/v2/");
    push_decimal(&mut out, date.year() as u64);
    out.push('-');
    push_two_digits(&mut out, date.month() as u64);
    out.push('-');
    push_two_digits(&mut out, date.day() as u64);
    push_str(&mut out, ".json");
    string_of(&out)
}

/// A dated puzzle's answer, from the fields read out of the response.
pub fn solution_from_fields(number: Option<u64>, answer: Option<&str>) -> (r: Result<
    Solution,
    ProviderError,
>)
    ensures
        number is None ==> r == Err::<Solution, ProviderError>(ProviderError::MissingNumber),
        number is Some && answer is None ==> r == Err::<Solution, ProviderError>(
            ProviderError::MissingSolution,
        ),
        number is Some && answer is Some && !is_word(answer->0@) ==> r == Err::<
            Solution,
            ProviderError,
        >(ProviderError::InvalidAnswer),
        number is Some && answer is Some && is_word(answer->0@) ==> (r matches Ok(s)
            && s.wordle_number == number && s.answer@ == answer->0@),
{
    let n = match number {
        Some(n) => n,
        None => return Err(ProviderError::MissingNumber),
    };
    let a = match answer {
        Some(a) => a,
        None => return Err(ProviderError::MissingSolution),
    };
    let cs = chars_of(a);
    if !check_word(&cs) {
        return Err(ProviderError::InvalidAnswer);
    }
    Ok(Solution { wordle_number: Some(n), answer: string_of(&cs) })
}

/// `serde_json::Value`, a parsed JSON document, held opaque.
#[verifier::external_type_specification]
#[verifier::external_body]
pub struct ExJsonValue(serde_json::Value);

/// Relies on `serde_json::from_str`: the JSON document in `text`, if it is one.
#[verifier::external_body]
fn parse_json(text: &str) -> (r: Option<serde_json::Value>) {
    serde_json::from_str(text).ok()
}

/// Relies on `serde_json::Value::get` with a string key: the member of an object.
#[verifier::external_body]
fn json_member<'a>(v: &'a serde_json::Value, key: &str) -> (r: Option<&'a serde_json::Value>) {
    v.get(key)
}

/// Relies on `serde_json::Value::as_u64`: the value as an unsigned integer, if it is one.
pub assume_specification[ serde_json::Value::as_u64 ](v: &serde_json::Value) -> Option<u64>;

/// Relies on `serde_json::Value::as_str`: the value as a string, if it is one.
pub assume_specification<'a>[ serde_json::Value::as_str ](v: &'a serde_json::Value) -> Option<&'a str>;

/// The first day with a puzzle: 2021-06-19.
pub open spec fn before_first_puzzle(d: CalendarDate) -> bool {
    date_before(d.year_of(), d.month_of(), d.day_of(), 2021, 6, 19)
}

/// The outcome for a dated puzzle: an error before the first puzzle, else the
/// address to fetch.
pub open spec fn dated_request(d: CalendarDate, r: Result<AnswerRequest, ProviderError>) -> bool {
    &&& before_first_puzzle(d) ==> r == Err::<AnswerRequest, ProviderError>(
        ProviderError::BeforeFirstPuzzle,
    )
    &&& !before_first_puzzle(d) ==> (r matches Ok(AnswerRequest::Fetch(u)) && u@ == puzzle_url(
        d.year_of() as nat,
        d.month_of() as nat,
        d.day_of() as nat,
    ))
}

/// A random word of the answer list, as a solution without a puzzle number.
pub fn random_answer(dictionary: &Dictionary) -> (r: Result<Solution, ProviderError>)
    ensures
        dictionary.answer_list().len() == 0 ==> r == Err::<Solution, ProviderError>(
            ProviderError::NoAnswers,
        ),
        r matches Ok(s) ==> s.wordle_number is None && is_word(s.answer@) && exists|i: int|
            0 <= i < dictionary.answer_list().len() && #[trigger] dictionary.answer_list()[i]
                == s.answer@,
        r matches Err(e) ==> e == ProviderError::NoAnswers || e == ProviderError::InvalidAnswer,
        r == Err::<Solution, ProviderError>(ProviderError::InvalidAnswer) ==> exists|i: int|
            0 <= i < dictionary.answer_list().len() && !is_word(
                #[trigger] dictionary.answer_list()[i],
            ),
        (forall|i: int|
            0 <= i < dictionary.answer_list().len() ==> is_word(
                #[trigger] dictionary.answer_list()[i],
            )) && dictionary.answer_list().len() > 0 ==> r is Ok,
{
    let n = dictionary.answer_count();
    if n == 0 {
        return Err(ProviderError::NoAnswers);
    }
    let idx = random_index(n);
    answer_at_index(dictionary, idx)
}

/// The word at position `idx` of the answer list, as a solution without a puzzle
/// number; an error where that word is not five lowercase letters.
pub fn answer_at_index(dictionary: &Dictionary, idx: usize) -> (r: Result<Solution, ProviderError>)
    requires
        idx < dictionary.answer_list().len(),
    ensures
        is_word(dictionary.answer_list()[idx as int]) ==> (r matches Ok(s) && s.wordle_number is None
            && s.answer@ == dictionary.answer_list()[idx as int]),
        !is_word(dictionary.answer_list()[idx as int]) ==> r == Err::<Solution, ProviderError>(
            ProviderError::InvalidAnswer,
        ),
{
    let w = dictionary.answer_at(idx);
    if !check_word(&w) {
        return Err(ProviderError::InvalidAnswer);
    }
    Ok(Solution { wordle_number: None, answer: string_of(&w) })
}

/// Chooses the answer of a game.
pub struct SolutionProvider;

impl SolutionProvider {
    /// What to do for the answer in `mode`: a random word of the list is picked at
    /// once; a dated puzzle is fetched from its address, for days from the first
    /// puzzle on.
    pub fn get_answer(&self, mode: &AppMode, dictionary: &Dictionary) -> (r: Result<
        AnswerRequest,
        ProviderError,
    >)
        requires
            *mode matches AppMode::Today(d) ==> d.wf(),
            *mode matches AppMode::Date(d) ==> d.wf(),
        ensures
            *mode == AppMode::Random ==> match r {
                Ok(AnswerRequest::Ready(s)) => s.wordle_number is None && is_word(s.answer@)
                    && exists|i: int|
                    0 <= i < dictionary.answer_list().len() && #[trigger] dictionary.answer_list()[i]
                        == s.answer@,
                Ok(AnswerRequest::Fetch(_)) => false,
                Err(e) => e == ProviderError::NoAnswers || e == ProviderError::InvalidAnswer,
            },
            *mode == AppMode::Random && dictionary.answer_list().len() == 0 ==> r == Err::<
                AnswerRequest,
                ProviderError,
            >(ProviderError::NoAnswers),
            *mode == AppMode::Random && dictionary.answer_list().len() > 0 && (forall|i: int|
                0 <= i < dictionary.answer_list().len() ==> is_word(
                    #[trigger] dictionary.answer_list()[i],
                )) ==> r is Ok,
            *mode matches AppMode::Today(d) ==> dated_request(d, r),
            *mode matches AppMode::Date(d) ==> dated_request(d, r),
    {
        match mode {
            AppMode::Random => match random_answer(dictionary) {
                Ok(s) => Ok(AnswerRequest::Ready(s)),
                Err(e) => Err(e),
            },
            AppMode::Today(date) => self.request_for_date(date),
            AppMode::Date(date) => self.request_for_date(date),
        }
    }

    fn request_for_date(&self, date: &CalendarDate) -> (r: Result<AnswerRequest, ProviderError>)
        requires
            date.wf(),
        ensures
            dated_request(*date, r),
    {
        let first = CalendarDate { year: 2021, month: 6, day: 19 };
        if date.is_before(&first) {
            return Err(ProviderError::BeforeFirstPuzzle);
        }
        Ok(AnswerRequest::Fetch(url_for_date(date)))
    }

    /// The solution in the body of a dated puzzle's response: its
    /// `days_since_launch` and `solution` members.
    pub fn solution_from_response(&self, body: &str) -> (r: Result<Solution, ProviderError>)
        ensures
            r matches Ok(s) ==> s.wordle_number is Some && is_word(s.answer@),
    {
        let json = match parse_json(body) {
            Some(j) => j,
            None => return Err(ProviderError::MalformedResponse),
        };
        let number = match json_member(&json, "days_since_launch") {
            Some(v) => v.as_u64(),
            None => None,
        };
        let answer = match json_member(&json, "solution") {
            Some(v) => v.as_str(),
            None => None,
        };
        solution_from_fields(number, answer)
    }
}

/// A dated puzzle's answer word, from the `solution` member read out of the response.
pub fn answer_from_field(answer: Option<&str>) -> (r: Result<String, ProviderError>)
    ensures
        answer is None ==> r == Err::<String, ProviderError>(ProviderError::MissingSolution),
        answer is Some && !is_word(answer->0@) ==> r == Err::<String, ProviderError>(
            ProviderError::InvalidAnswer,
        ),
        answer is Some && is_word(answer->0@) ==> (r matches Ok(a) && a@ == answer->0@),
{
    match answer {
        Some(a) => {
            let cs = chars_of(a);
            if check_word(&cs) {
                Ok(string_of(&cs))
            } else {
                Err(ProviderError::InvalidAnswer)
            }
        },
        None => Err(ProviderError::MissingSolution),
    }
}

/// Fetches only the answer word of a dated puzzle.
pub struct AnswerClient;

impl AnswerClient {
    /// What to do for the answer in `mode`, as `SolutionProvider::get_answer` decides it.
    pub fn get_answer(&self, mode: &AppMode, dictionary: &Dictionary) -> (r: Result<
        AnswerRequest,
        ProviderError,
    >)
        requires
            *mode matches AppMode::Today(d) ==> d.wf(),
            *mode matches AppMode::Date(d) ==> d.wf(),
        ensures
            *mode == AppMode::Random ==> match r {
                Ok(AnswerRequest::Ready(s)) => s.wordle_number is None && is_word(s.answer@)
                    && exists|i: int|
                    0 <= i < dictionary.answer_list().len() && #[trigger] dictionary.answer_list()[i]
                        == s.answer@,
                Ok(AnswerRequest::Fetch(_)) => false,
                Err(e) => e == ProviderError::NoAnswers || e == ProviderError::InvalidAnswer,
            },
            *mode == AppMode::Random && dictionary.answer_list().len() == 0 ==> r == Err::<
                AnswerRequest,
                ProviderError,
            >(ProviderError::NoAnswers),
            *mode == AppMode::Random && dictionary.answer_list().len() > 0 && (forall|i: int|
                0 <= i < dictionary.answer_list().len() ==> is_word(
                    #[trigger] dictionary.answer_list()[i],
                )) ==> r is Ok,
            *mode matches AppMode::Today(d) ==> dated_request(d, r),
            *mode matches AppMode::Date(d) ==> dated_request(d, r),
    {
        SolutionProvider.get_answer(mode, dictionary)
    }

    /// The answer in the body of a dated puzzle's response: its `solution` member.
    pub fn answer_from_response(&self, body: &str) -> (r: Result<String, ProviderError>)
        ensures
            r matches Ok(a) ==> is_word(a@),
    {
        let json = match parse_json(body) {
            Some(j) => j,
            None => return Err(ProviderError::MalformedResponse),
        };
        let answer = match json_member(&json, "solution") {
            Some(v) => v.as_str(),
            None => None,
        };
        answer_from_field(answer)
    }
}

} // verus!
