use weather_station::audio::{
    judge, AudioManager, ExternalCommandFailed, Fatality, Rejection, Signal, SubmitOutcome,
    WorkerPhase, WorkerStep,
};
use weather_station::control::{
    follow_up, reading_due, Cli, FollowUp, BMP280_PERIOD_SECS, DHT22_PERIOD_SECS,
};
use weather_station::direction::WindDirection;
use weather_station::forecast::{local_command, ForecastData, Message};
use weather_station::numeral::{decimal, round, round_to_text, Single};
use weather_station::speed::{Ratio, WindSpeed};

fn single(value: f32) -> Single {
    Single::from_bits(value.to_bits())
}

fn sample() -> ForecastData {
    ForecastData {
        temperature: single(21.4),
        humidity: single(55.5),
        pressure: single(1013.25),
        wind_direction: WindDirection::NorthEast,
        wind_speed: WindSpeed::new(2, 250_000_000),
        rainfall: false,
    }
}

fn expected_script(t: f32, h: f32, p: f32, direction: &str, speed: f64, rain: &str) -> String {
    format!(
        "(SayText \"Aktualny stan pogody\")
            (SayText \"temperatura\")(SayText \"{:.0} stopni Celsjusza\")
            (SayText \"Wilgotnos~c~\")(SayText \"{:.0} procent\")
            (SayText \"C~is~nienie\")(SayText \"{:.0} hektopaskali\")
            (SayText \"Kierunek wiatru\")(SayText \"{}\")
            (SayText \"Pre~dkos~c~ wiatru\")(SayText \"{:.0} metro~w na sekunde\")
            (SayText \"Opad atmosferyczny\")(SayText \"{}\")",
        t, h, p, direction, speed, rain
    )
}

#[test]
fn decimal_writes_digits() {
    assert_eq!(decimal(0), "0");
    assert_eq!(decimal(7), "7");
    assert_eq!(decimal(10), "10");
    assert_eq!(decimal(1234567890), "1234567890");
    assert_eq!(decimal(u128::MAX), u128::MAX.to_string());
}

#[test]
fn round_goes_to_nearest_and_halves_to_even() {
    assert_eq!(round(Ratio { num: 0, den: 3 }), 0);
    assert_eq!(round(Ratio { num: 1, den: 2 }), 0);
    assert_eq!(round(Ratio { num: 3, den: 2 }), 2);
    assert_eq!(round(Ratio { num: 5, den: 2 }), 2);
    assert_eq!(round(Ratio { num: 7, den: 2 }), 4);
    assert_eq!(round(Ratio { num: 160, den: 9 }), 18);
    assert_eq!(round(Ratio { num: 10, den: 4 }), 2);
    assert_eq!(round(Ratio { num: 9, den: 4 }), 2);
    assert_eq!(round(Ratio { num: 11, den: 4 }), 3);
    assert_eq!(round(Ratio { num: u128::MAX, den: 1 }), u128::MAX);
    assert_eq!(round(Ratio { num: u128::MAX, den: u128::MAX }), 1);
    assert_eq!(round(Ratio { num: u128::MAX - 1, den: u128::MAX }), 1);
}

#[test]
fn round_to_text_matches_float_formatting() {
    assert_eq!(round_to_text(Ratio { num: 160, den: 9 }), format!("{:.0}", 160.0f64 / 9.0));
    assert_eq!(round_to_text(Ratio { num: 1, den: 2 }), format!("{:.0}", 0.5f64));
    assert_eq!(round_to_text(Ratio { num: 5, den: 2 }), format!("{:.0}", 2.5f64));
    assert_eq!(round_to_text(Ratio { num: 0, den: 7 }), "0");
    assert_eq!(round_to_text(Ratio { num: 1, den: 0 }), format!("{:.0}", 1.0f64 / 0.0));
    assert_eq!(round_to_text(Ratio { num: 0, den: 0 }), "NaN");
}

#[test]
fn phrases_of_directions_and_rainfall() {
    let phrases = [
        (WindDirection::North, "Pul/noc"),
        (WindDirection::NorthEast, "Pul/nocny wschud"),
        (WindDirection::East, "Wschud"),
        (WindDirection::SouthEast, "Pol/udniowy wschud"),
        (WindDirection::South, "Pol/udnie"),
        (WindDirection::SouthWest, "Pol/udniowy zachud"),
        (WindDirection::West, "Zachud"),
        (WindDirection::NorthWest, "Pul/nocno zachodni"),
        (WindDirection::Unknown, "nieznany"),
    ];
    let mut forecast = sample();
    for (direction, phrase) in phrases {
        forecast.wind_direction = direction;
        assert_eq!(forecast.say_wind_direction(), phrase);
    }
    assert_eq!(forecast.say_rainfall(), "nie wyste~puje");
    forecast.rainfall = true;
    assert_eq!(forecast.say_rainfall(), "wyste~puje");
}

#[test]
fn script_is_the_fixed_sequence_of_directives() {
    let forecast = sample();
    let expected = expected_script(
        21.4,
        55.5,
        1013.25,
        "Pul/nocny wschud",
        4.0 * 16.0 / 3.6,
        "nie wyste~puje",
    );
    assert_eq!(forecast.script(), expected);
    assert!(forecast.script().contains("(SayText \"21 stopni Celsjusza\")"));
    assert!(forecast.script().contains("(SayText \"56 procent\")"));
    assert!(forecast.script().contains("(SayText \"1013 hektopaskali\")"));
    assert!(forecast.script().contains("(SayText \"18 metro~w na sekunde\")"));
}

#[test]
fn script_of_standstill_rain_and_unknown_direction() {
    let forecast = ForecastData {
        temperature: single(-3.6),
        humidity: single(99.9),
        pressure: single(987.0),
        wind_direction: WindDirection::Unknown,
        wind_speed: WindSpeed::zero(),
        rainfall: true,
    };
    let expected = expected_script(-3.6, 99.9, 987.0, "nieznany", 0.0, "wyste~puje");
    assert_eq!(forecast.script(), expected);
}

#[test]
fn echo_becomes_the_echo_utility() {
    let command = local_command(&Message::Echo(String::from("hello there")));
    assert_eq!(command.program, "echo");
    assert_eq!(command.arguments, vec![String::from("hello there")]);
    assert_eq!(command.notice, None);
}

#[test]
fn forecast_becomes_a_shell_pipe_into_festival() {
    let forecast = sample();
    let command = local_command(&Message::SayForecast(forecast));
    assert_eq!(command.program, "sh");
    assert_eq!(command.arguments.len(), 2);
    assert_eq!(command.arguments[0], "-c");
    assert_eq!(command.arguments[1], format!("echo '{}' | festival -", forecast.script()));
    assert_eq!(command.notice, Some(forecast.script()));
}

#[test]
fn judge_reports_failed_commands() {
    assert_eq!(judge(true, true, Some(0)), Ok(()));
    assert_eq!(judge(true, false, Some(2)), Err(ExternalCommandFailed::Exited(Some(2))));
    assert_eq!(judge(true, false, None), Err(ExternalCommandFailed::Exited(None)));
    assert_eq!(judge(false, false, None), Err(ExternalCommandFailed::NotStarted));
    assert_eq!(judge(false, true, Some(0)), Err(ExternalCommandFailed::NotStarted));
}

#[test]
fn submission_before_the_worker_started_is_busy() {
    let mut manager = AudioManager::new();
    assert_eq!(manager.signal(), Signal::Ready);
    assert_eq!(
        manager.try_submit(Message::Echo(String::from("early"))),
        SubmitOutcome::Rejected(Rejection::Busy)
    );
    assert!(manager.slot.is_none());
    assert!(manager.start_thread());
    assert_eq!(manager.phase, WorkerPhase::Waiting);
    assert!(!manager.start_thread());
    assert_eq!(manager.phase, WorkerPhase::Waiting);
}

#[test]
fn second_submission_is_rejected_while_the_first_is_served() {
    let mut manager = AudioManager::new();
    manager.start_thread();
    assert_eq!(manager.try_submit(Message::SayForecast(sample())), SubmitOutcome::Accepted);
    assert_eq!(
        manager.try_submit(Message::SayForecast(sample())),
        SubmitOutcome::Rejected(Rejection::Busy)
    );
    assert_eq!(manager.signal(), Signal::Ready);
    let step = manager.receive();
    assert_eq!(manager.signal(), Signal::Busy);
    assert_eq!(manager.phase, WorkerPhase::Executing);
    match step {
        WorkerStep::Execute(command) => {
            assert_eq!(command.program, "sh");
            assert_eq!(command.arguments[1], format!("echo '{}' | festival -", sample().script()));
        }
        other => panic!("expected a command, got {:?}", other),
    }
    assert_eq!(
        manager.try_submit(Message::Echo(String::from("again"))),
        SubmitOutcome::Rejected(Rejection::Busy)
    );
    assert!(manager.slot.is_none());
    assert!(matches!(manager.receive(), WorkerStep::Wait));
    assert_eq!(manager.signal(), Signal::Busy);
    manager.finish(judge(true, true, Some(0)));
    assert_eq!(manager.signal(), Signal::Ready);
    assert_eq!(manager.phase, WorkerPhase::Waiting);
    assert_eq!(manager.try_submit(Message::Echo(String::from("again"))), SubmitOutcome::Accepted);
}

#[test]
fn signal_is_raised_again_after_a_failed_command() {
    let mut manager = AudioManager::new();
    manager.start_thread();
    assert_eq!(manager.try_submit(Message::Echo(String::from("one"))), SubmitOutcome::Accepted);
    match manager.receive() {
        WorkerStep::Execute(command) => {
            assert_eq!(command.program, "echo");
            assert_eq!(command.arguments, vec![String::from("one")]);
        }
        other => panic!("expected a command, got {:?}", other),
    }
    assert_eq!(manager.signal(), Signal::Busy);
    manager.finish(judge(true, false, Some(1)));
    assert_eq!(manager.signal(), Signal::Ready);
    assert_eq!(manager.phase, WorkerPhase::Waiting);
    assert!(matches!(manager.receive(), WorkerStep::Wait));
    assert_eq!(manager.try_submit(Message::Echo(String::from("two"))), SubmitOutcome::Accepted);
    assert!(matches!(manager.receive(), WorkerStep::Execute(_)));
}

#[test]
fn break_stops_the_worker_and_later_submissions_are_fatal() {
    let mut manager = AudioManager::new();
    manager.start_thread();
    assert!(matches!(manager.receive(), WorkerStep::Wait));
    assert_eq!(manager.try_submit(Message::Break), SubmitOutcome::Accepted);
    assert!(matches!(manager.receive(), WorkerStep::Halt));
    assert_eq!(manager.phase, WorkerPhase::Stopped);
    assert_eq!(manager.signal(), Signal::Ready);
    assert_eq!(
        manager.try_submit(Message::Echo(String::from("late"))),
        SubmitOutcome::Fatal(Fatality::Disconnected)
    );
    assert!(manager.slot.is_none());
    manager.finish(Ok(()));
    assert_eq!(manager.phase, WorkerPhase::Stopped);
}

#[test]
fn follow_up_of_each_outcome() {
    assert_eq!(follow_up(SubmitOutcome::Accepted), FollowUp::Restart);
    assert_eq!(follow_up(SubmitOutcome::Rejected(Rejection::Busy)), FollowUp::Retry);
    assert_eq!(follow_up(SubmitOutcome::Fatal(Fatality::Disconnected)), FollowUp::Abort);
}

#[test]
fn announcement_is_due_by_interval_or_button() {
    let cli = Cli::new();
    assert_eq!(cli, Cli { interval_audio: 300, auto_audio: false });
    assert!(!cli.triggered(1000, 1000, false));
    assert!(cli.triggered(0, 1, true));
    assert!(!cli.triggered(0, 0, true));
    let auto = Cli { interval_audio: 60, auto_audio: true };
    assert!(!auto.triggered(59, 59, false));
    assert!(auto.triggered(60, 0, false));
    assert!(auto.triggered(10, 2, true));
}

#[test]
fn sensors_are_read_on_their_periods() {
    assert!(!reading_due(4, DHT22_PERIOD_SECS));
    assert!(reading_due(5, DHT22_PERIOD_SECS));
    assert!(!reading_due(9, BMP280_PERIOD_SECS));
    assert!(reading_due(10, BMP280_PERIOD_SECS));
}

#[test]
fn signal_line_is_high_while_ready() {
    assert!(Signal::Ready.line_high());
    assert!(!Signal::Busy.line_high());
}

#[test]
fn singles_round_like_float_formatting() {
    let values: [f32; 40] = [
        0.0, -0.0, 0.3, -0.3, 0.5, -0.5, 0.500_000_06, 0.499_999_97, 1.0, 1.5, -1.5, 2.5, 3.5,
        -2.5, 21.4, 21.5, 21.6, 22.5, 55.5, 99.9, 99.5, 100.0, -40.0, -39.5, 1013.25, 1013.5,
        987.0, 8_388_607.5, 8_388_608.0, 8_388_609.0, 16_777_215.0, 16_777_216.0, 33_554_432.0,
        1.0e10, 1.0e20, 3.0e38, 1.0e-10, 1.0e-30, 1.0e-40, 4_194_304.5,
    ];
    for value in values {
        assert_eq!(single(value).round_to_text(), format!("{:.0}", value), "{:?}", value);
    }
    for special in [f32::MAX, f32::MIN, f32::MIN_POSITIVE, f32::EPSILON, f32::INFINITY] {
        assert_eq!(single(special).round_to_text(), format!("{:.0}", special));
    }
    assert_eq!(single(f32::NEG_INFINITY).round_to_text(), "-inf");
    assert_eq!(single(f32::NAN).round_to_text(), "NaN");
    assert_eq!(Single::from_bits(0xFFC0_0001).round_to_text(), "NaN");
}

#[test]
fn singles_round_exactly() {
    assert_eq!(single(21.4).round(), Some(21));
    assert_eq!(single(21.5).round(), Some(22));
    assert_eq!(single(22.5).round(), Some(22));
    assert_eq!(single(-3.6).round(), Some(4));
    assert_eq!(single(0.25).round(), Some(0));
    assert_eq!(single(16_777_216.0).round(), Some(16_777_216));
    assert_eq!(single(f32::MAX).round(), Some(340282346638528859811704183484516925440));
    assert_eq!(Single::from_bits(1).round(), Some(0));
    assert_eq!(single(f32::NAN).round(), None);
    assert_eq!(single(f32::INFINITY).round(), None);
    assert_eq!(single(f32::NEG_INFINITY).round(), None);
    assert!(single(1.0).is_finite());
    assert!(!single(f32::NAN).is_finite());
    assert_eq!(single(21.4).round_to_text(), "21");
    assert_eq!(single(-3.6).round_to_text(), "-4");
    assert_eq!(single(-0.2).round_to_text(), "-0");
}

#[test]
fn sweep_of_singles_rounds_like_float_formatting() {
    let mut bits: u32 = 0;
    loop {
        let value = f32::from_bits(bits);
        assert_eq!(Single::from_bits(bits).round_to_text(), format!("{:.0}", value));
        let negative = bits | 0x8000_0000;
        assert_eq!(
            Single::from_bits(negative).round_to_text(),
            format!("{:.0}", f32::from_bits(negative))
        );
        match bits.checked_add(0x0001_2345) {
            Some(next) if next < 0x8000_0000 => bits = next,
            _ => break,
        }
    }
}

#[test]
fn worker_that_is_gone_makes_submissions_fatal() {
    let mut manager = AudioManager::new();
    manager.start_thread();
    assert_eq!(manager.try_submit(Message::Echo(String::from("one"))), SubmitOutcome::Accepted);
    assert!(matches!(manager.receive(), WorkerStep::Execute(_)));
    assert_eq!(
        manager.try_submit(Message::Echo(String::from("two"))),
        SubmitOutcome::Rejected(Rejection::Busy)
    );
    manager.disconnect();
    assert_eq!(manager.phase, WorkerPhase::Stopped);
    assert_eq!(manager.signal(), Signal::Busy);
    assert_eq!(
        manager.try_submit(Message::Echo(String::from("three"))),
        SubmitOutcome::Fatal(Fatality::Disconnected)
    );
    assert!(manager.slot.is_none());
    assert!(matches!(manager.receive(), WorkerStep::Wait));

    let mut waiting = AudioManager::new();
    waiting.start_thread();
    assert_eq!(waiting.try_submit(Message::Echo(String::from("lost"))), SubmitOutcome::Accepted);
    waiting.disconnect();
    assert!(waiting.slot.is_none());
    assert_eq!(waiting.signal(), Signal::Ready);
    assert_eq!(
        waiting.try_submit(Message::Break),
        SubmitOutcome::Fatal(Fatality::Disconnected)
    );
}
