use turdle::dictionary::Dictionary;
use turdle::provider::{
    answer_at_index, answer_from_field, random_answer, solution_from_fields, url_for_date, AnswerClient, AnswerRequest, AppMode,
    CalendarDate, ProviderError, SolutionProvider,
};

#[test]
fn calendar_dates_follow_the_calendar() {
    assert!(CalendarDate::new(2024, 2, 29).is_some());
    assert!(CalendarDate::new(2023, 2, 29).is_none());
    assert!(CalendarDate::new(1900, 2, 29).is_none());
    assert!(CalendarDate::new(2000, 2, 29).is_some());
    assert!(CalendarDate::new(2024, 4, 31).is_none());
    assert!(CalendarDate::new(2024, 13, 1).is_none());
    assert!(CalendarDate::new(2024, 0, 1).is_none());
    assert!(CalendarDate::new(2024, 1, 0).is_none());
    assert!(CalendarDate::new(10000, 1, 1).is_none());
    let d = CalendarDate::new(2022, 1, 5).unwrap();
    assert_eq!((d.year(), d.month(), d.day()), (2022, 1, 5));
}

#[test]
fn url_pads_month_and_day() {
    let d = CalendarDate::new(2022, 1, 5).unwrap();
    assert_eq!(url_for_date(&d), "https://www.nytimes.com/svc/wordle/v2/2022-01-05.json");
    let d = CalendarDate::new(2023, 12, 25).unwrap();
    assert_eq!(url_for_date(&d), "https://www.nytimes.com/svc/wordle/v2/2023-12-25.json");
}

#[test]
fn dated_request_before_first_puzzle_fails() {
    let dict = Dictionary::new(&vec![], &vec![]);
    let p = SolutionProvider;
    let early = CalendarDate::new(2021, 6, 18).unwrap();
    assert!(matches!(
        p.get_answer(&AppMode::Date(early), &dict),
        Err(ProviderError::BeforeFirstPuzzle)
    ));
    let first = CalendarDate::new(2021, 6, 19).unwrap();
    match p.get_answer(&AppMode::Today(first), &dict) {
        Ok(AnswerRequest::Fetch(u)) => {
            assert_eq!(u, "https://www.nytimes.com/svc/wordle/v2/2021-06-19.json")
        }
        _ => panic!("expected an address"),
    }
}

#[test]
fn random_answer_comes_from_the_list() {
    let answers = vec!["crate".to_string(), "sheep".to_string()];
    let dict = Dictionary::new(&answers, &vec![]);
    for _ in 0..20 {
        let s = random_answer(&dict).unwrap();
        assert!(s.wordle_number.is_none());
        assert!(s.answer == "crate" || s.answer == "sheep");
    }
    match SolutionProvider.get_answer(&AppMode::Random, &dict) {
        Ok(AnswerRequest::Ready(s)) => assert!(answers.contains(&s.answer)),
        _ => panic!("expected a ready answer"),
    }
    let empty = Dictionary::new(&vec![], &vec![]);
    assert!(matches!(random_answer(&empty), Err(ProviderError::NoAnswers)));
    let bad = Dictionary::new(&vec!["Crate".to_string()], &vec![]);
    assert!(matches!(random_answer(&bad), Err(ProviderError::InvalidAnswer)));
}

#[test]
fn solution_fields_are_checked() {
    assert!(matches!(solution_from_fields(None, Some("crate")), Err(ProviderError::MissingNumber)));
    assert!(matches!(solution_from_fields(Some(3), None), Err(ProviderError::MissingSolution)));
    assert!(matches!(
        solution_from_fields(Some(3), Some("crates")),
        Err(ProviderError::InvalidAnswer)
    ));
    let s = solution_from_fields(Some(1234), Some("crate")).unwrap();
    assert_eq!(s.wordle_number, Some(1234));
    assert_eq!(s.answer, "crate");
}

#[test]
fn solution_read_from_response() {
    let p = SolutionProvider;
    let body = r#"{"id":1,"solution":"crate","print_date":"2024-01-01","days_since_launch":926,"editor":"x"}"#;
    let s = p.solution_from_response(body).unwrap();
    assert_eq!(s.wordle_number, Some(926));
    assert_eq!(s.answer, "crate");
    assert!(matches!(p.solution_from_response("not json"), Err(ProviderError::MalformedResponse)));
    assert!(matches!(
        p.solution_from_response(r#"{"solution":"crate"}"#),
        Err(ProviderError::MissingNumber)
    ));
    assert!(matches!(
        p.solution_from_response(r#"{"days_since_launch":5}"#),
        Err(ProviderError::MissingSolution)
    ));
    assert!(matches!(
        p.solution_from_response(r#"{"days_since_launch":"5","solution":"crate"}"#),
        Err(ProviderError::MissingNumber)
    ));
    assert_eq!(AnswerClient.answer_from_response(body).unwrap(), "crate");
    assert!(matches!(
        AnswerClient.answer_from_response(r#"{"solution":7}"#),
        Err(ProviderError::MissingSolution)
    ));
}

#[test]
fn answer_client_decides_like_the_provider() {
    let dict = Dictionary::new(&vec!["sheep".to_string()], &vec![]);
    match AnswerClient.get_answer(&AppMode::Random, &dict) {
        Ok(AnswerRequest::Ready(s)) => assert_eq!(s.answer, "sheep"),
        _ => panic!("expected a ready answer"),
    }
    let d = CalendarDate::new(2024, 11, 2).unwrap();
    match AnswerClient.get_answer(&AppMode::Date(d), &dict) {
        Ok(AnswerRequest::Fetch(u)) => {
            assert_eq!(u, "https://www.nytimes.com/svc/wordle/v2/2024-11-02.json")
        }
        _ => panic!("expected an address"),
    }
    let early = CalendarDate::new(2020, 12, 31).unwrap();
    assert!(matches!(
        AnswerClient.get_answer(&AppMode::Today(early), &dict),
        Err(ProviderError::BeforeFirstPuzzle)
    ));
}

#[test]
fn answer_at_index_takes_that_word() {
    let dict = Dictionary::new(&vec!["crate".to_string(), "Sheep".to_string(), "plumb".to_string()], &vec![]);
    assert_eq!(answer_at_index(&dict, 0).unwrap().answer, "crate");
    assert_eq!(answer_at_index(&dict, 2).unwrap().answer, "plumb");
    assert!(answer_at_index(&dict, 2).unwrap().wordle_number.is_none());
    assert!(matches!(answer_at_index(&dict, 1), Err(ProviderError::InvalidAnswer)));
}

#[test]
fn answer_field_is_checked() {
    assert_eq!(answer_from_field(Some("crate")).unwrap(), "crate");
    assert!(matches!(answer_from_field(None), Err(ProviderError::MissingSolution)));
    assert!(matches!(answer_from_field(Some("CRATE")), Err(ProviderError::InvalidAnswer)));
    assert!(matches!(answer_from_field(Some("")), Err(ProviderError::InvalidAnswer)));
}
