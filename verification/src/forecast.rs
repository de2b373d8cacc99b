//! What the station says: the forecast, its spoken script and the
//! command that speaks it.

use vstd::prelude::*;
use vstd::string::*;
use crate::direction::WindDirection;
use crate::numeral::{round_to_text, rounded_text, Single};
use crate::speed::WindSpeed;

verus! {

/// The spoken phrase for a wind direction.
pub open spec fn direction_phrase(direction: WindDirection) -> Seq<char> {
    match direction {
        WindDirection::North => "Pul/noc"@,
        WindDirection::NorthEast => "Pul/nocny wschud"@,
        WindDirection::East => "Wschud"@,
        WindDirection::SouthEast => "Pol/udniowy wschud"@,
        WindDirection::South => "Pol/udnie"@,
        WindDirection::SouthWest => "Pol/udniowy zachud"@,
        WindDirection::West => "Zachud"@,
        WindDirection::NorthWest => "Pul/nocno zachodni"@,
        WindDirection::Unknown => "nieznany"@,
    }
}

/// The spoken phrase for rainfall, present or not.
pub open spec fn rainfall_phrase(rainfall: bool) -> Seq<char> {
    if rainfall {
        "wyste~puje"@
    } else {
        "nie wyste~puje"@
    }
}

/// The script for the speech synthesiser: a fixed sequence of `SayText`
/// directives around the six texts of a forecast.
pub open spec fn script_text(
    temperature: Seq<char>,
    humidity: Seq<char>,
    pressure: Seq<char>,
    direction: Seq<char>,
    speed: Seq<char>,
    rainfall: Seq<char>,
) -> Seq<char> {
    "(SayText \"Aktualny stan pogody\")\n            (SayText \"temperatura\")(SayText \""@
        + temperature
        + " stopni Celsjusza\")\n            (SayText \"Wilgotnos~c~\")(SayText \""@ + humidity
        + " procent\")\n            (SayText \"C~is~nienie\")(SayText \""@ + pressure
        + " hektopaskali\")\n            (SayText \"Kierunek wiatru\")(SayText \""@ + direction
        + "\")\n            (SayText \"Pre~dkos~c~ wiatru\")(SayText \""@ + speed
        + " metro~w na sekunde\")\n            (SayText \"Opad atmosferyczny\")(SayText \""@
        + rainfall + "\")"@
}

/// The shell line that pipes a script into the speech synthesiser.
pub open spec fn shell_line(script: Seq<char>) -> Seq<char> {
    "echo '"@ + script + "' | festival -"@
}

/// The readings that one announcement speaks, copied at the moment it
/// was triggered: temperature in degrees Celsius, humidity in percent,
/// pressure in hectopascal, wind direction, wind speed and rainfall.
#[derive(Clone, Copy, Debug)]
pub struct ForecastData {
    pub temperature: Single,
    pub humidity: Single,
    pub pressure: Single,
    pub wind_direction: WindDirection,
    pub wind_speed: WindSpeed,
    pub rainfall: bool,
}

impl ForecastData {
    /// The script that speaks this forecast.
    pub open spec fn script_spec(&self) -> Seq<char> {
        script_text(
            self.temperature.text(),
            self.humidity.text(),
            self.pressure.text(),
            direction_phrase(self.wind_direction),
            rounded_text(self.wind_speed.mps()),
            rainfall_phrase(self.rainfall),
        )
    }

    /// The phrase for the wind direction.
    pub fn say_wind_direction(&self) -> (phrase: &'static str)
        ensures
            phrase@ == direction_phrase(self.wind_direction),
    {
        match self.wind_direction {
            WindDirection::North => "Pul/noc",
            WindDirection::NorthEast => "Pul/nocny wschud",
            WindDirection::East => "Wschud",
            WindDirection::SouthEast => "Pol/udniowy wschud",
            WindDirection::South => "Pol/udnie",
            WindDirection::SouthWest => "Pol/udniowy zachud",
            WindDirection::West => "Zachud",
            WindDirection::NorthWest => "Pul/nocno zachodni",
            WindDirection::Unknown => "nieznany",
        }
    }

    /// The phrase for rainfall.
    pub fn say_rainfall(&self) -> (phrase: &'static str)
        ensures
            phrase@ == rainfall_phrase(self.rainfall),
    {
        if self.rainfall {
            "wyste~puje"
        } else {
            "nie wyste~puje"
        }
    }

    /// Renders the script for the speech synthesiser: preamble,
    /// temperature, humidity, pressure, wind direction, wind speed in
    /// metres per second, and rainfall, every number rounded to zero
    /// decimal places.
    pub fn script(&self) -> (text: String)
        ensures
            text@ == self.script_spec(),
    {
        let temperature = self.temperature.round_to_text();
        let humidity = self.humidity.round_to_text();
        let pressure = self.pressure.round_to_text();
        let speed = round_to_text(self.wind_speed.meters_per_sec());
        let mut text = String::from_str(
            "(SayText \"Aktualny stan pogody\")\n            (SayText \"temperatura\")(SayText \"",
        );
        text.append(temperature.as_str());
        text.append(" stopni Celsjusza\")\n            (SayText \"Wilgotnos~c~\")(SayText \"");
        text.append(humidity.as_str());
        text.append(" procent\")\n            (SayText \"C~is~nienie\")(SayText \"");
        text.append(pressure.as_str());
        text.append(" hektopaskali\")\n            (SayText \"Kierunek wiatru\")(SayText \"");
        text.append(self.say_wind_direction());
        text.append("\")\n            (SayText \"Pre~dkos~c~ wiatru\")(SayText \"");
        text.append(speed.as_str());
        text.append(" metro~w na sekunde\")\n            (SayText \"Opad atmosferyczny\")(SayText \"");
        text.append(self.say_rainfall());
        text.append("\")");
        text
    }
}

/// A request to the announcement worker.
#[derive(Clone, Debug)]
pub enum Message {
    /// Print a text with the `echo` utility.
    Echo(String),
    /// Speak a forecast.
    SayForecast(ForecastData),
    /// Stop serving.
    Break,
}

/// An external command: the program and its arguments, and the text to
/// print before it runs, if any.
#[derive(Clone, Debug)]
pub struct CommandLine {
    pub program: String,
    pub arguments: Vec<String>,
    pub notice: Option<String>,
}

impl CommandLine {
    /// Whether this is `program` with exactly the one argument `argument`.
    pub open spec fn is_unary(&self, program: Seq<char>, argument: Seq<char>) -> bool {
        &&& self.program@ == program
        &&& self.arguments@.len() == 1
        &&& self.arguments@[0]@ == argument
    }

    /// Whether this is `program` with exactly the two arguments given.
    pub open spec fn is_binary(&self, program: Seq<char>, first: Seq<char>, second: Seq<char>) -> bool {
        &&& self.program@ == program
        &&& self.arguments@.len() == 2
        &&& self.arguments@[0]@ == first
        &&& self.arguments@[1]@ == second
    }

    /// Whether `text` is what is printed before the command runs.
    pub open spec fn announces(&self, text: Option<Seq<char>>) -> bool {
        match text {
            Some(script) => self.notice matches Some(notice) && notice@ == script,
            None => self.notice is None,
        }
    }

    /// Whether this is the command that carries out `message`: `echo`
    /// with the text and nothing printed before it, or a shell that
    /// pipes the forecast's script into the speech synthesiser, with the
    /// script printed before it.
    pub open spec fn carries_out(&self, message: Message) -> bool {
        match message {
            Message::Echo(text) => self.is_unary("echo"@, text@) && self.announces(None),
            Message::SayForecast(forecast) => self.is_binary(
                "sh"@,
                "-c"@,
                shell_line(forecast.script_spec()),
            ) && self.announces(Some(forecast.script_spec())),
            Message::Break => false,
        }
    }
}

/// The external command that carries out a request. `Break` is carried
/// out by no command.
pub fn local_command(message: &Message) -> (command: CommandLine)
    requires
        !(*message is Break),
    ensures
        command.carries_out(*message),
{
    let mut arguments: Vec<String> = Vec::new();
    match message {
        Message::Echo(text) => {
            arguments.push(text.clone());
            CommandLine { program: String::from_str("echo"), arguments, notice: None }
        },
        Message::SayForecast(forecast) => {
            let mut line = String::from_str("echo '");
            let script = forecast.script();
            line.append(script.as_str());
            line.append("' | festival -");
            arguments.push(String::from_str("-c"));
            arguments.push(line);
            CommandLine { program: String::from_str("sh"), arguments, notice: Some(script) }
        },
        Message::Break => CommandLine { program: String::new(), arguments, notice: None },
    }
}

} // verus!
