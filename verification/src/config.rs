//! The configuration, read from the program's arguments.
//!
//! After the program's name the arguments are options: a name, which starts
//! with a hyphen, and for some of them a value behind it. The port may also
//! stand alone as the first argument.

use crate::text::{literal_up_to, parse_unsigned, same_text, starts_with_hyphen, strip_hyphens,
    texts, without_hyphens};
use std::time::Duration;
use vstd::prelude::*;

verus! {

/// The span that `Duration::from_millis` makes of a number of milliseconds.
pub uninterp spec fn millis_span(millis: u64) -> Duration;

/// The span that `Duration::from_secs` makes of a number of seconds.
pub uninterp spec fn secs_span(secs: u64) -> Duration;

/// `Duration::from_millis` is a function of its argument: it returns the
/// span of that many milliseconds.
pub assume_specification[ Duration::from_millis ](millis: u64) -> (span: Duration)
    ensures
        span == millis_span(millis),
;

/// `Duration::from_secs` is a function of its argument: it returns the span
/// of that many seconds.
pub assume_specification[ Duration::from_secs ](secs: u64) -> (span: Duration)
    ensures
        span == secs_span(secs),
;

/// The lowest port that is accepted.
pub const PORT_MIN: u32 = 1001;

/// The highest port that is accepted.
pub const PORT_MAX: u32 = 65535;

/// What the program runs with.
#[derive(Debug)]
pub struct Config {
    /// The port of the transport, from `PORT_MIN` to `PORT_MAX`.
    pub port: u32,
    /// Whether entries are generated rather than read from the input.
    pub random: bool,
    /// The period of the generator.
    pub random_generate_interval: Duration,
    /// The period of the storer.
    pub random_store_interval: Duration,
}

/// An option of the command line: its name without the leading hyphens, and
/// its value if it has one.
#[derive(Debug)]
pub struct OptionArg {
    pub name: String,
    pub value: Option<String>,
}

/// An option as texts.
pub struct OptionText {
    pub name: Seq<char>,
    pub value: Option<Seq<char>>,
}

/// The settings that the options fill in, before they are checked.
pub struct Settings {
    pub port: Option<Seq<char>>,
    pub random: bool,
    pub generate: Option<Seq<char>>,
    pub store: Option<Seq<char>>,
}

impl View for OptionArg {
    type V = OptionText;

    open spec fn view(&self) -> OptionText {
        OptionText { name: self.name@, value: text_of(self.value) }
    }
}

/// The view of a string that may be absent.
pub open spec fn text_of(value: Option<String>) -> Option<Seq<char>> {
    match value {
        Some(text) => Some(text@),
        None => None,
    }
}

/// The views of a list of options, in order.
pub open spec fn option_texts(options: Seq<OptionArg>) -> Seq<OptionText> {
    options.map_values(|option: OptionArg| option@)
}

/// Whether a result is what `model` says: the same value, or an error with
/// the same message.
pub open spec fn agrees<T>(result: Result<T, &'static str>, model: Result<T, Seq<char>>) -> bool {
    match model {
        Ok(value) => result matches Ok(found) && found == value,
        Err(message) => result matches Err(text) && text@ == message,
    }
}

/// An argument that names an option.
pub open spec fn is_option_name(item: Seq<char>) -> bool {
    item.len() > 0 && item[0] == '-'
}

/// The place of the first option called `name` in `table`, or the length of
/// `table` when there is none.
pub open spec fn place_of(table: Seq<OptionText>, name: Seq<char>) -> int
    decreases table.len(),
{
    if table.len() == 0 || table[0].name == name {
        0
    } else {
        1 + place_of(table.drop_first(), name)
    }
}

/// `table` with an option called `name`: as it is when it has one, else with
/// a new one without a value at its end.
pub open spec fn declared(table: Seq<OptionText>, name: Seq<char>) -> Seq<OptionText> {
    if place_of(table, name) < table.len() {
        table
    } else {
        table.push(OptionText { name, value: None })
    }
}

/// `table` with `value` given to the option called `name`, which is added at
/// the end when it is new.
pub open spec fn assigned(table: Seq<OptionText>, name: Seq<char>, value: Seq<char>) -> Seq<
    OptionText,
> {
    let option = OptionText { name, value: Some(value) };
    if place_of(table, name) < table.len() {
        table.update(place_of(table, name), option)
    } else {
        table.push(option)
    }
}

/// The options that a list of arguments holds, under their names as written
/// and in the order in which the names first occur. A name declares its
/// option, once. A value belongs to the name right before it and replaces
/// that option's earlier value; a value that opens the list is the port. Any
/// other value has no option to belong to, and the list is refused: `None`.
pub open spec fn option_table(items: Seq<Seq<char>>) -> Option<Seq<OptionText>>
    decreases items.len(),
{
    if items.len() == 0 {
        Some(Seq::empty())
    } else {
        let item = items.last();
        match option_table(items.drop_last()) {
            None => None,
            Some(table) => if is_option_name(item) {
                Some(declared(table, item))
            } else if items.len() == 1 {
                Some(assigned(table, "port"@, item))
            } else if is_option_name(items[items.len() - 2]) {
                Some(assigned(table, items[items.len() - 2], item))
            } else {
                None
            },
        }
    }
}

/// An option with the leading hyphens taken off its name.
pub open spec fn named(option: OptionText) -> OptionText {
    OptionText { name: strip_hyphens(option.name), value: option.value }
}

/// The options of `table` with the leading hyphens taken off their names.
pub open spec fn named_all(table: Seq<OptionText>) -> Seq<OptionText> {
    table.map_values(|option: OptionText| named(option))
}

/// The options of a list of arguments, their names without hyphens.
pub open spec fn options_of(items: Seq<Seq<char>>) -> Option<Seq<OptionText>> {
    match option_table(items) {
        Some(table) => Some(named_all(table)),
        None => None,
    }
}

/// The settings before any option: no port, no generator, a generator period
/// of 500 and a storer period of 30.
pub open spec fn default_settings() -> Settings {
    Settings { port: None, random: false, generate: Some("500"@), store: Some("30"@) }
}

/// The settings after one more option, or `None` for an option that is not
/// known.
pub open spec fn with_option(settings: Settings, option: OptionText) -> Option<Settings> {
    if option.name == "port"@ || option.name == "p"@ {
        Some(Settings { port: option.value, ..settings })
    } else if option.name == "random"@ || option.name == "r"@ {
        Some(Settings { random: true, ..settings })
    } else if option.name == "generate-interval"@ {
        Some(Settings { generate: option.value, ..settings })
    } else if option.name == "store-interval"@ {
        Some(Settings { store: option.value, ..settings })
    } else {
        None
    }
}

/// The settings after a list of options, taken in order, or `None` when one
/// of them is not known.
pub open spec fn with_options(settings: Settings, options: Seq<OptionText>) -> Option<Settings>
    decreases options.len(),
{
    if options.len() == 0 {
        Some(settings)
    } else {
        match with_options(settings, options.drop_last()) {
            Some(earlier) => with_option(earlier, options.last()),
            None => None,
        }
    }
}

/// The port that a text denotes: an unsigned decimal literal from
/// `PORT_MIN` to `PORT_MAX`.
pub open spec fn port_number(text: Option<Seq<char>>) -> Result<u32, Seq<char>> {
    match text {
        None => Err("Didn't get a port"@),
        Some(text) => match literal_up_to(text, u32::MAX as nat) {
            None => Err("Error with port argument"@),
            Some(port) => if PORT_MIN <= port <= PORT_MAX {
                Ok(port as u32)
            } else {
                Err("Port value must be between 1001 and 65535"@)
            },
        },
    }
}

/// The number of time units that a text denotes: an unsigned decimal literal
/// that fits 64 bits.
pub open spec fn period_number(text: Option<Seq<char>>) -> Result<u64, Seq<char>> {
    match text {
        None => Err("No duration value provided"@),
        Some(text) => match literal_up_to(text, u64::MAX as nat) {
            None => Err("Error with duration option"@),
            Some(units) => Ok(units as u64),
        },
    }
}

/// The configuration that checked settings make.
pub open spec fn checked(settings: Settings) -> Result<Config, Seq<char>> {
    match (
        port_number(settings.port),
        period_number(settings.generate),
        period_number(settings.store),
    ) {
        (Err(message), _, _) => Err(message),
        (Ok(_), Err(message), _) => Err(message),
        (Ok(_), Ok(_), Err(message)) => Err(message),
        (Ok(port), Ok(millis), Ok(secs)) => Ok(
            Config {
                port,
                random: settings.random,
                random_generate_interval: millis_span(millis),
                random_store_interval: secs_span(secs),
            },
        ),
    }
}

/// The configuration that the program's arguments denote, the program's name
/// first, or the message of the first fault.
pub open spec fn configuration(args: Seq<Seq<char>>) -> Result<Config, Seq<char>> {
    let items = if args.len() > 0 {
        args.drop_first()
    } else {
        args
    };
    match options_of(items) {
        None => Err("Error while parsing option arguments"@),
        Some(options) => match with_options(default_settings(), options) {
            None => Err("Configuration parsing failed due to unknown option"@),
            Some(settings) => checked(settings),
        },
    }
}

fn copy_of(value: &Option<String>) -> (copy: Option<String>)
    ensures
        copy == *value,
{
    match value {
        Some(text) => Some(text.clone()),
        None => None,
    }
}

/// Where `place_of` points there is an option of that name, and nowhere
/// before.
proof fn lemma_place_found(table: Seq<OptionText>, name: Seq<char>)
    ensures
        0 <= place_of(table, name) <= table.len(),
        place_of(table, name) < table.len() ==> table[place_of(table, name)].name == name,
        forall|i: int| 0 <= i < place_of(table, name) ==> (#[trigger] table[i]).name != name,
    decreases table.len(),
{
    if table.len() > 0 && table[0].name != name {
        let rest = table.drop_first();
        lemma_place_found(rest, name);
        assert forall|i: int| 0 <= i < place_of(table, name) implies (#[trigger] table[i]).name
            != name by {
            if i > 0 {
                assert(table[i] == rest[i - 1]);
            }
        }
    }
}

/// Whether no two options of `table` have the same name.
pub open spec fn names_differ(table: Seq<OptionText>) -> bool {
    forall|i: int, j: int|
        0 <= i < j < table.len() ==> (#[trigger] table[i]).name != (#[trigger] table[j]).name
}

/// The table of options holds each name once: a name that comes again finds
/// its option, and an option keeps the place of its first occurrence.
pub proof fn lemma_option_names_differ(items: Seq<Seq<char>>)
    ensures
        option_table(items) matches Some(table) ==> names_differ(table),
    decreases items.len(),
{
    if items.len() > 0 {
        lemma_option_names_differ(items.drop_last());
        if let Some(before) = option_table(items.drop_last()) {
            let name = if is_option_name(items.last()) {
                items.last()
            } else if items.len() == 1 {
                "port"@
            } else {
                items[items.len() - 2]
            };
            lemma_place_found(before, name);
        }
    }
}

proof fn lemma_place_of(table: Seq<OptionText>, name: Seq<char>, place: int)
    requires
        0 <= place <= table.len(),
        forall|i: int| 0 <= i < place ==> (#[trigger] table[i]).name != name,
        place < table.len() ==> table[place].name == name,
    ensures
        place_of(table, name) == place,
    decreases place,
{
    if place > 0 {
        lemma_place_of(table.drop_first(), name, place - 1);
    }
}

proof fn lemma_refused_for_good(items: Seq<Seq<char>>, seen: int)
    requires
        0 <= seen <= items.len(),
        option_table(items.take(seen)) is None,
    ensures
        option_table(items) is None,
    decreases items.len() - seen,
{
    if seen == items.len() {
        assert(items.take(seen) =~= items);
    } else {
        assert(items.take(seen + 1).drop_last() =~= items.take(seen));
        lemma_refused_for_good(items, seen + 1);
    }
}

proof fn lemma_unknown_for_good(settings: Settings, options: Seq<OptionText>, seen: int)
    requires
        0 <= seen <= options.len(),
        with_options(settings, options.take(seen)) is None,
    ensures
        with_options(settings, options) is None,
    decreases options.len() - seen,
{
    if seen == options.len() {
        assert(options.take(seen) =~= options);
    } else {
        assert(options.take(seen + 1).drop_last() =~= options.take(seen));
        lemma_unknown_for_good(settings, options, seen + 1);
    }
}

fn find(table: &Vec<OptionArg>, name: &String) -> (place: usize)
    ensures
        place == place_of(option_texts(table@), name@),
        place <= table@.len(),
{
    let mut place: usize = 0;
    while place < table.len() && !(table[place].name == *name)
        invariant
            place <= table@.len(),
            forall|i: int| 0 <= i < place ==> (#[trigger] table@[i]).name@ != name@,
        decreases table@.len() - place,
    {
        place += 1;
    }
    proof {
        lemma_place_of(option_texts(table@), name@, place as int);
    }
    place
}

fn declare(table: &mut Vec<OptionArg>, name: String)
    ensures
        option_texts(final(table)@) == declared(option_texts(old(table)@), name@),
{
    let place = find(table, &name);
    if place == table.len() {
        table.push(OptionArg { name, value: None });
    }
}

fn assign(table: &mut Vec<OptionArg>, name: String, value: String)
    ensures
        option_texts(final(table)@) == assigned(option_texts(old(table)@), name@, value@),
{
    let place = find(table, &name);
    let option = OptionArg { name, value: Some(value) };
    if place < table.len() {
        table.set(place, option);
    } else {
        table.push(option);
    }
}

impl OptionArg {
    /// An option from its name as written and its value.
    pub fn new(name: String, value: Option<String>) -> (option: OptionArg)
        ensures
            option.name@ == strip_hyphens(name@),
            option.value == value,
    {
        let name = without_hyphens(name.as_str());
        OptionArg { name, value }
    }
}

impl Config {
    /// Reads the configuration from the program's arguments, the program's
    /// name first.
    pub fn new(args: Vec<String>) -> (config: Result<Config, &'static str>)
        ensures
            agrees(config, configuration(texts(args@))),
    {
        let mut items: Vec<String> = Vec::new();
        let mut i: usize = 1;
        while i < args.len()
            invariant
                1 <= i,
                i <= args@.len() || args@.len() == 0,
                args@.len() > 0 ==> items@ == args@.subrange(1, i as int),
                args@.len() == 0 ==> items@ == args@,
            decreases args@.len() - i,
        {
            items.push(args[i].clone());
            i += 1;
        }
        let ghost lines = if args@.len() > 0 {
            texts(args@).drop_first()
        } else {
            texts(args@)
        };
        assert(texts(items@) =~= lines);
        let options = match Config::parse_option_args(&items) {
            Ok(options) => options,
            Err(message) => {
                return Err(message);
            },
        };
        let mut port: Option<String> = None;
        let mut random: bool = false;
        let mut generate: Option<String> = Some("500".to_owned());
        let mut store: Option<String> = Some("30".to_owned());
        let ghost listed = option_texts(options@);
        let mut j: usize = 0;
        while j < options.len()
            invariant
                j <= options@.len(),
                listed == option_texts(options@),
                options_of(lines) == Some(listed),
                lines == if args@.len() > 0 {
                    texts(args@).drop_first()
                } else {
                    texts(args@)
                },
                with_options(default_settings(), listed.take(j as int)) == Some(
                    Settings {
                        port: text_of(port),
                        random,
                        generate: text_of(generate),
                        store: text_of(store),
                    },
                ),
            decreases options@.len() - j,
        {
            let option = &options[j];
            assert(listed.take(j + 1).drop_last() =~= listed.take(j as int));
            let name = option.name.as_str();
            if same_text(name, "port") || same_text(name, "p") {
                port = copy_of(&option.value);
            } else if same_text(name, "random") || same_text(name, "r") {
                random = true;
            } else if same_text(name, "generate-interval") {
                generate = copy_of(&option.value);
            } else if same_text(name, "store-interval") {
                store = copy_of(&option.value);
            } else {
                proof {
                    lemma_unknown_for_good(default_settings(), listed, j + 1);
                }
                return Err("Configuration parsing failed due to unknown option");
            }
            j += 1;
        }
        assert(listed.take(options@.len() as int) =~= listed);
        let port = match Config::check_port(port) {
            Ok(port) => port,
            Err(message) => {
                return Err(message);
            },
        };
        let random_generate_interval = match Config::check_duration(
            generate,
            Duration::from_millis,
        ) {
            Ok(span) => span,
            Err(message) => {
                return Err(message);
            },
        };
        let random_store_interval = match Config::check_duration(store, Duration::from_secs) {
            Ok(span) => span,
            Err(message) => {
                return Err(message);
            },
        };
        Ok(Config { port, random, random_generate_interval, random_store_interval })
    }

    /// Collects the options of a list of arguments.
    pub fn parse_option_args(items: &Vec<String>) -> (options: Result<
        Vec<OptionArg>,
        &'static str,
    >)
        ensures
            (match options_of(texts(items@)) {
                Some(listed) => options matches Ok(found) && option_texts(found@) == listed,
                None => options matches Err(text) && text@
                    == "Error while parsing option arguments"@,
            }),
    {
        let ghost lines = texts(items@);
        let mut table: Vec<OptionArg> = Vec::new();
        let mut i: usize = 0;
        while i < items.len()
            invariant
                i <= items@.len(),
                lines == texts(items@),
                option_table(lines.take(i as int)) == Some(option_texts(table@)),
            decreases items@.len() - i,
        {
            assert(lines.take(i + 1).drop_last() =~= lines.take(i as int));
            if starts_with_hyphen(items[i].as_str()) {
                declare(&mut table, items[i].clone());
            } else if i == 0 {
                assign(&mut table, "port".to_owned(), items[i].clone());
            } else if starts_with_hyphen(items[i - 1].as_str()) {
                assign(&mut table, items[i - 1].clone(), items[i].clone());
            } else {
                proof {
                    lemma_refused_for_good(lines, i + 1);
                }
                return Err("Error while parsing option arguments");
            }
            i += 1;
        }
        assert(lines.take(items@.len() as int) =~= lines);
        let ghost raw = option_texts(table@);
        let mut options: Vec<OptionArg> = Vec::new();
        let mut j: usize = 0;
        while j < table.len()
            invariant
                j <= table@.len(),
                raw == option_texts(table@),
                option_texts(options@) == named_all(raw.take(j as int)),
            decreases table@.len() - j,
        {
            let option = OptionArg::new(table[j].name.clone(), copy_of(&table[j].value));
            options.push(option);
            assert(named_all(raw.take(j + 1)) =~= named_all(raw.take(j as int)).push(
                named(raw[j as int]),
            ));
            j += 1;
        }
        Ok(options)
    }

    /// Checks the port.
    pub fn check_port(port: Option<String>) -> (number: Result<u32, &'static str>)
        ensures
            agrees(number, port_number(text_of(port))),
    {
        let port = match port {
            Some(port) => port,
            None => {
                return Err("Didn't get a port");
            },
        };
        let port: u32 = match parse_unsigned(port.as_str(), u32::MAX as u64) {
            Some(port) => port as u32,
            None => {
                return Err("Error with port argument");
            },
        };
        if port < PORT_MIN || port > PORT_MAX {
            return Err("Port value must be between 1001 and 65535");
        }
        Ok(port)
    }

    /// Checks a period and makes a span of it with `func`, which gives the
    /// number its unit.
    pub fn check_duration<T>(duration: Option<String>, func: T) -> (span: Result<
        Duration,
        &'static str,
    >) where T: Fn(u64) -> Duration
        requires
            forall|units: u64| #[trigger] func.requires((units,)),
        ensures
            (match period_number(text_of(duration)) {
                Ok(units) => span matches Ok(made) && func.ensures((units,), made),
                Err(message) => span matches Err(text) && text@ == message,
            }),
    {
        let duration = match duration {
            Some(duration) => duration,
            None => {
                return Err("No duration value provided");
            },
        };
        match parse_unsigned(duration.as_str(), u64::MAX) {
            Some(units) => Ok(func(units)),
            None => Err("Error with duration option"),
        }
    }
}

} // verus!
