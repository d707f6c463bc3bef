use aircap::captures::wireless::wifi::{decimal_text, ChannelCommand, ChannelSpecification};

fn words(command: &ChannelCommand) -> Vec<&str> {
    command.arguments.iter().map(|word| word.as_str()).collect()
}

#[test]
fn twenty_mhz_channel_six() {
    let command = ChannelCommand::new("wlan0", ChannelSpecification::TwentyMHz { channel: 6 });
    assert_eq!(command.program, "iw");
    assert_eq!(words(&command), vec!["dev", "wlan0", "set", "channel", "6", "HT20"]);
}

#[test]
fn forty_mhz_secondary_above() {
    let command = ChannelCommand::new(
        "wlan0",
        ChannelSpecification::FourtyMHz { primary_channel: 36, secondary_channel_above: true },
    );
    assert_eq!(command.program, "iw");
    assert_eq!(words(&command), vec!["dev", "wlan0", "set", "channel", "36", "HT40U"]);
}

#[test]
fn forty_mhz_secondary_below() {
    let command = ChannelCommand::new(
        "wlan0",
        ChannelSpecification::FourtyMHz { primary_channel: 40, secondary_channel_above: false },
    );
    assert_eq!(command.program, "iw");
    assert_eq!(words(&command), vec!["dev", "wlan0", "set", "channel", "40", "HT40D"]);
}

#[test]
fn the_device_word_is_the_interface_as_given() {
    let command = ChannelCommand::new("mon0 ", ChannelSpecification::TwentyMHz { channel: 1 });
    assert_eq!(words(&command)[1], "mon0 ");
    let command = ChannelCommand::new("", ChannelSpecification::TwentyMHz { channel: 1 });
    assert_eq!(words(&command), vec!["dev", "", "set", "channel", "1", "HT20"]);
}

#[test]
fn channels_are_not_range_checked() {
    let command = ChannelCommand::new("wlan0", ChannelSpecification::TwentyMHz { channel: 0 });
    assert_eq!(words(&command)[4], "0");
    let command = ChannelCommand::new(
        "wlan0",
        ChannelSpecification::FourtyMHz { primary_channel: 255, secondary_channel_above: false },
    );
    assert_eq!(words(&command)[4], "255");
    assert_eq!(words(&command)[5], "HT40D");
}

#[test]
fn bandwidth_tokens() {
    assert_eq!(ChannelSpecification::TwentyMHz { channel: 11 }.bandwidth_token(), "HT20");
    assert_eq!(
        ChannelSpecification::FourtyMHz { primary_channel: 11, secondary_channel_above: true }
            .bandwidth_token(),
        "HT40U"
    );
    assert_eq!(
        ChannelSpecification::FourtyMHz { primary_channel: 11, secondary_channel_above: false }
            .bandwidth_token(),
        "HT40D"
    );
}

#[test]
fn channel_numbers() {
    assert_eq!(ChannelSpecification::TwentyMHz { channel: 13 }.channel_number(), 13);
    assert_eq!(
        ChannelSpecification::FourtyMHz { primary_channel: 149, secondary_channel_above: true }
            .channel_number(),
        149
    );
}

#[test]
fn decimal_text_edges() {
    assert_eq!(decimal_text(0), "0");
    assert_eq!(decimal_text(9), "9");
    assert_eq!(decimal_text(10), "10");
    assert_eq!(decimal_text(99), "99");
    assert_eq!(decimal_text(100), "100");
    assert_eq!(decimal_text(101), "101");
    assert_eq!(decimal_text(110), "110");
    assert_eq!(decimal_text(255), "255");
}

#[test]
fn decimal_text_is_the_usual_rendering() {
    let mut n: u8 = 0;
    loop {
        assert_eq!(decimal_text(n), format!("{}", n));
        if n == u8::MAX {
            break;
        }
        n += 1;
    }
}
