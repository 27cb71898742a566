use lexa_kernel::signal::{compose, SEND_DELAY_MILLISECONDS};
use lexa_kernel::{Channel, LoggerReader, LoggerSignal, WorkerAction, WorkerEvent};

fn strings(texts: &[&str]) -> Vec<String> {
    texts.iter().map(|text| text.to_string()).collect()
}

fn rendered(action: WorkerAction) -> Option<String> {
    match action {
        WorkerAction::Render(message) => Some(message),
        WorkerAction::Nothing => None,
    }
}

#[test]
fn a_new_signal_is_empty() {
    let signal = LoggerSignal::create("lexa-app", "1.2.3");
    assert_eq!(signal.name(), "lexa-app");
    assert_eq!(signal.version(), "1.2.3");
    assert!(signal.warnings().is_empty());
    assert!(signal.errors().is_empty());
}

#[test]
fn messages_are_kept_per_channel_in_the_order_they_were_sent() {
    let mut signal = LoggerSignal::create("lexa-app", "1.2.3");
    signal.send_error("first error");
    signal.send_warning("a warning");
    signal.send_error("second error");
    assert_eq!(signal.errors(), &strings(&["first error", "second error"]));
    assert_eq!(signal.warnings(), &strings(&["a warning"]));
}

#[test]
fn taking_messages_out_empties_the_channel_only() {
    let mut signal = LoggerSignal::create("lexa-app", "1.2.3");
    signal.send_error("e1");
    signal.send_warning("w1");
    signal.send_warning("w2");

    assert_eq!(signal.take_warnings(), strings(&["w1", "w2"]));
    assert!(signal.warnings().is_empty());
    assert_eq!(signal.errors(), &strings(&["e1"]));

    assert_eq!(signal.take_errors(), strings(&["e1"]));
    assert!(signal.errors().is_empty());
    assert!(signal.take_errors().is_empty());

    signal.send_warning("w3");
    assert_eq!(signal.take_warnings(), strings(&["w3"]));
    assert_eq!(signal.name(), "lexa-app");
    assert_eq!(signal.version(), "1.2.3");
}

#[test]
fn terminated_writes_the_sentinel_to_both_channels() {
    let mut signal = LoggerSignal::create("lexa-app", "1.2.3");
    signal.send_warning("before");
    signal.terminated();
    assert_eq!(signal.warnings(), &strings(&["before", "terminated"]));
    assert_eq!(signal.errors(), &strings(&["terminated"]));
}

#[test]
fn the_sender_waits_sixteen_milliseconds() {
    assert_eq!(SEND_DELAY_MILLISECONDS, 16);
}

#[test]
fn a_reader_starts_listening() {
    let reader = LoggerReader::new(Channel::Warning, "lexa-app", "1.2.3");
    assert!(reader.is_listening());
    let signal = LoggerSignal::create("lexa-app", "1.2.3");
    assert!(signal.reader(Channel::Error).is_listening());
}

#[test]
fn a_message_is_rendered_and_the_worker_goes_on() {
    let mut reader = LoggerReader::new(Channel::Warning, "lexa-app", "1.2.3");
    let action = reader.receive(WorkerEvent::Message(String::from("careful")));
    assert_eq!(rendered(action), Some(String::from("careful")));
    assert!(reader.is_listening());
}

#[test]
fn the_sentinel_stops_the_worker_and_is_not_rendered() {
    let mut reader = LoggerReader::new(Channel::Error, "lexa-app", "1.2.3");
    let action = reader.receive(WorkerEvent::Message(String::from("terminated")));
    assert_eq!(rendered(action), None);
    assert!(!reader.is_listening());
}

#[test]
fn a_closed_channel_stops_the_worker_without_a_last_word() {
    let mut reader = LoggerReader::new(Channel::Error, "lexa-app", "1.2.3");
    let action = reader.receive(WorkerEvent::Disconnected);
    assert_eq!(rendered(action), None);
    assert!(!reader.is_listening());
}

#[test]
fn a_stopped_worker_renders_nothing() {
    let mut reader = LoggerReader::new(Channel::Warning, "lexa-app", "1.2.3");
    reader.receive(WorkerEvent::Disconnected);
    let action = reader.receive(WorkerEvent::Message(String::from("too late")));
    assert_eq!(rendered(action), None);
    assert!(!reader.is_listening());
    assert_eq!(reader.consume(strings(&["a", "b"])), Vec::<String>::new());
    assert!(!reader.is_listening());
}

#[test]
fn only_the_exact_sentinel_stops_the_worker() {
    let mut reader = LoggerReader::new(Channel::Warning, "lexa-app", "1.2.3");
    let sent = strings(&["Terminated", "terminated ", "", "terminate"]);
    assert_eq!(reader.consume(sent.clone()), sent);
    assert!(reader.is_listening());
}

#[test]
fn messages_after_the_sentinel_are_never_rendered() {
    let mut reader = LoggerReader::new(Channel::Warning, "lexa-app", "1.2.3");
    let sent = strings(&["one", "two", "terminated", "three", "terminated", "four"]);
    assert_eq!(reader.consume(sent), strings(&["one", "two"]));
    assert!(!reader.is_listening());
    assert_eq!(reader.consume(strings(&["five"])), Vec::<String>::new());
}

#[test]
fn a_sentinel_sent_first_lets_nothing_through() {
    let mut reader = LoggerReader::new(Channel::Error, "lexa-app", "1.2.3");
    assert_eq!(reader.consume(strings(&["terminated", "one"])), Vec::<String>::new());
    assert!(!reader.is_listening());
}

#[test]
fn a_worker_goes_on_from_one_batch_to_the_next() {
    let mut reader = LoggerReader::new(Channel::Error, "lexa-app", "1.2.3");
    assert_eq!(reader.consume(Vec::new()), Vec::<String>::new());
    assert!(reader.is_listening());
    assert_eq!(reader.consume(strings(&["one"])), strings(&["one"]));
    assert!(reader.is_listening());
    assert_eq!(reader.consume(strings(&["two", "terminated"])), strings(&["two"]));
    assert!(!reader.is_listening());
}

#[test]
fn two_errors_and_one_warning_are_each_rendered_once_in_send_order() {
    let mut signal = LoggerSignal::create("lexa-app", "1.2.3");
    signal.send_error("first error");
    signal.send_error("second error");
    signal.send_warning("the warning");

    let mut errors = signal.reader(Channel::Error);
    let mut warnings = signal.reader(Channel::Warning);
    let rendered_errors = errors.consume(signal.take_errors());
    let rendered_warnings = warnings.consume(signal.take_warnings());

    assert_eq!(rendered_errors, strings(&["first error", "second error"]));
    assert_eq!(rendered_warnings, strings(&["the warning"]));
    assert!(errors.is_listening());
    assert!(warnings.is_listening());

    assert_eq!(errors.line(&rendered_errors[0]), "error[lexa-app@1.2.3]: first error");
    assert_eq!(errors.line(&rendered_errors[1]), "error[lexa-app@1.2.3]: second error");
    assert_eq!(warnings.line(&rendered_warnings[0]), "warning[lexa-app@1.2.3]: the warning");

    assert!(errors.consume(signal.take_errors()).is_empty());
    assert!(warnings.consume(signal.take_warnings()).is_empty());
}

#[test]
fn terminated_stops_both_workers() {
    let mut signal = LoggerSignal::create("lexa-app", "1.2.3");
    let mut errors = signal.reader(Channel::Error);
    let mut warnings = signal.reader(Channel::Warning);
    signal.send_warning("w");
    signal.terminated();
    signal.send_warning("late warning");
    signal.send_error("late error");
    assert_eq!(warnings.consume(signal.take_warnings()), strings(&["w"]));
    assert_eq!(errors.consume(signal.take_errors()), Vec::<String>::new());
    assert!(!warnings.is_listening());
    assert!(!errors.is_listening());
}

#[test]
fn a_line_names_the_channel_and_the_application() {
    assert_eq!(compose("warning", "app", "0.1.0", "text"), "warning[app@0.1.0]: text");
    assert_eq!(compose("", "", "", ""), "[@]: ");
    let reader = LoggerReader::new(Channel::Warning, "app", "0.1.0");
    assert_eq!(reader.line("disk is full"), "warning[app@0.1.0]: disk is full");
    let reader = LoggerReader::new(Channel::Error, "app", "0.1.0");
    assert_eq!(reader.line(""), "error[app@0.1.0]: ");
}

#[test]
fn a_line_is_rendered_plainly_without_colours() {
    console::set_colors_enabled(false);
    let reader = LoggerReader::new(Channel::Warning, "app", "0.1.0");
    assert_eq!(reader.render("disk is full"), "warning[app@0.1.0]: disk is full");
    let reader = LoggerReader::new(Channel::Error, "app", "0.1.0");
    assert_eq!(reader.render("disk is full"), "error[app@0.1.0]: disk is full");
}

#[test]
fn a_warning_is_rendered_in_yellow() {
    console::set_colors_enabled(true);
    let reader = LoggerReader::new(Channel::Warning, "app", "0.1.0");
    assert_eq!(
        reader.render("disk is full"),
        "\u{1b}[33mwarning\u{1b}[0m[\u{1b}[33mapp\u{1b}[0m@\u{1b}[34m0.1.0\u{1b}[0m]: \
         \u{1b}[33m\u{1b}[6mdisk is full\u{1b}[0m"
    );
}

#[test]
fn an_error_is_rendered_in_red() {
    console::set_colors_enabled(true);
    let reader = LoggerReader::new(Channel::Error, "app", "0.1.0");
    assert_eq!(
        reader.render("disk is full"),
        "\u{1b}[31merror\u{1b}[0m[\u{1b}[31mapp\u{1b}[0m@\u{1b}[34m0.1.0\u{1b}[0m]: \
         \u{1b}[31m\u{1b}[6mdisk is full\u{1b}[0m"
    );
}

#[test]
fn a_rendered_line_agrees_with_the_styles_of_the_console() {
    console::set_colors_enabled(true);
    let reader = LoggerReader::new(Channel::Warning, "app", "0.1.0");
    let expected = format!(
        "{}[{}@{}]: {}",
        console::style("warning").yellow(),
        console::style("app").yellow(),
        console::style("0.1.0").blue(),
        console::style("late").yellow().blink_fast(),
    );
    assert_eq!(reader.render("late"), expected);
    let reader = LoggerReader::new(Channel::Error, "app", "0.1.0");
    let expected = format!(
        "{}[{}@{}]: {}",
        console::style("error").red(),
        console::style("app").red(),
        console::style("0.1.0").blue(),
        console::style("late").red().blink_fast(),
    );
    assert_eq!(reader.render("late"), expected);
}
