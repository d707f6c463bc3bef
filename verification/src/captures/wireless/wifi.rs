//! Captures on wireless interfaces, and the command that asks for a
//! channel change.

use crate::capture::Capture;
use vstd::prelude::*;
use vstd::string::StringExecFns;

verus! {

/// The radio channel a wireless interface is asked to tune to.
///
/// Channel numbers are not range-checked here; the configuration tool
/// that receives them decides whether they are valid.
#[derive(Clone, Copy, Debug, PartialEq, Eq, Structural)]
pub enum ChannelSpecification {
    TwentyMHz { channel: u8 },
    FourtyMHz { primary_channel: u8, secondary_channel_above: bool },
}

impl ChannelSpecification {
    /// The channel number handed to the configuration tool: the channel
    /// itself at 20 MHz, the primary channel at 40 MHz.
    pub open spec fn spec_channel_number(self) -> u8 {
        match self {
            ChannelSpecification::TwentyMHz { channel } => channel,
            ChannelSpecification::FourtyMHz { primary_channel, .. } => primary_channel,
        }
    }

    /// The bandwidth token handed to the configuration tool.
    pub open spec fn spec_bandwidth_token(self) -> Seq<char> {
        match self {
            ChannelSpecification::TwentyMHz { .. } => "HT20"@,
            ChannelSpecification::FourtyMHz { secondary_channel_above, .. } => {
                if secondary_channel_above {
                    "HT40U"@
                } else {
                    "HT40D"@
                }
            },
        }
    }

    #[verifier::when_used_as_spec(spec_channel_number)]
    pub fn channel_number(self) -> (number: u8)
        ensures
            number == self.spec_channel_number(),
    {
        match self {
            ChannelSpecification::TwentyMHz { channel } => channel,
            ChannelSpecification::FourtyMHz { primary_channel, .. } => primary_channel,
        }
    }

    pub fn bandwidth_token(self) -> (token: &'static str)
        ensures
            token@ == self.spec_bandwidth_token(),
    {
        match self {
            ChannelSpecification::TwentyMHz { .. } => "HT20",
            ChannelSpecification::FourtyMHz { secondary_channel_above, .. } => {
                if secondary_channel_above {
                    "HT40U"
                } else {
                    "HT40D"
                }
            },
        }
    }
}

/// The character that writes the decimal digit `d`.
pub open spec fn digit_char(d: nat) -> char
    recommends
        d < 10,
{
    if d == 0 {
        '0'
    } else if d == 1 {
        '1'
    } else if d == 2 {
        '2'
    } else if d == 3 {
        '3'
    } else if d == 4 {
        '4'
    } else if d == 5 {
        '5'
    } else if d == 6 {
        '6'
    } else if d == 7 {
        '7'
    } else if d == 8 {
        '8'
    } else {
        '9'
    }
}

/// `n` written in base ten, most significant digit first, without
/// leading zeros.
pub open spec fn decimal(n: nat) -> Seq<char>
    decreases n,
{
    if n < 10 {
        seq![digit_char(n)]
    } else {
        decimal(n / 10).push(digit_char(n % 10))
    }
}

fn digit_text(d: u8) -> (text: &'static str)
    requires
        d < 10,
    ensures
        text@ == seq![digit_char(d as nat)],
{
    proof {
        reveal_strlit("0");
        reveal_strlit("1");
        reveal_strlit("2");
        reveal_strlit("3");
        reveal_strlit("4");
        reveal_strlit("5");
        reveal_strlit("6");
        reveal_strlit("7");
        reveal_strlit("8");
        reveal_strlit("9");
    }
    let text = if d == 0 {
        "0"
    } else if d == 1 {
        "1"
    } else if d == 2 {
        "2"
    } else if d == 3 {
        "3"
    } else if d == 4 {
        "4"
    } else if d == 5 {
        "5"
    } else if d == 6 {
        "6"
    } else if d == 7 {
        "7"
    } else if d == 8 {
        "8"
    } else {
        "9"
    };
    assert(text@ =~= seq![digit_char(d as nat)]);
    text
}

/// Writes a channel number in base ten.
pub fn decimal_text(n: u8) -> (text: String)
    ensures
        text@ == decimal(n as nat),
{
    let mut text = String::new();
    if n >= 100 {
        text.append(digit_text(n / 100));
    }
    if n >= 10 {
        text.append(digit_text((n / 10) % 10));
    }
    text.append(digit_text(n % 10));
    proof {
        reveal_with_fuel(decimal, 3);
        assert(text@ =~= decimal(n as nat));
    }
    text
}

/// The words that follow the program name when the configuration tool is
/// asked to tune `interface` as `specification` says: the device, then
/// the channel number in base ten, then the bandwidth token.
pub open spec fn channel_arguments(
    interface: Seq<char>,
    specification: ChannelSpecification,
) -> Seq<Seq<char>> {
    seq![
        "dev"@,
        interface,
        "set"@,
        "channel"@,
        decimal(specification.spec_channel_number() as nat),
        specification.spec_bandwidth_token(),
    ]
}

/// One invocation of the external interface-configuration tool.
///
/// Building the command starts nothing. Whoever runs it does not wait for
/// it and does not report its failure: a channel change is advisory.
#[derive(Debug)]
pub struct ChannelCommand {
    pub program: String,
    pub arguments: Vec<String>,
}

impl ChannelCommand {
    pub fn new(interface: &str, specification: ChannelSpecification) -> (command: ChannelCommand)
        ensures
            command.program@ == "iw"@,
            command.arguments.deep_view() == channel_arguments(interface@, specification),
    {
        let mut arguments: Vec<String> = Vec::new();
        arguments.push(String::from_str("dev"));
        arguments.push(String::from_str(interface));
        arguments.push(String::from_str("set"));
        arguments.push(String::from_str("channel"));
        arguments.push(decimal_text(specification.channel_number()));
        arguments.push(String::from_str(specification.bandwidth_token()));
        assert(arguments.deep_view() =~= channel_arguments(interface@, specification));
        ChannelCommand { program: String::from_str("iw"), arguments }
    }
}

/// A blocking capture on a wireless interface: any blocking capture,
/// together with the interface's name, which the channel control needs.
///
/// The name is kept beside the inner capture and never changes. Sending
/// and receiving are the inner capture's, untouched.
pub struct WiFiCapture<C: Capture> {
    inner: C,
    interface: String,
}

/// The suspending counterpart of a `WiFiCapture`: the suspending
/// counterpart of its inner capture, under the same interface name.
pub struct AsyncWiFiCapture<A> {
    inner: A,
    interface: String,
}

impl<C: Capture> WiFiCapture<C> {
    pub closed spec fn spec_inner(&self) -> C {
        self.inner
    }

    pub closed spec fn spec_interface(&self) -> Seq<char> {
        self.interface@
    }

    /// Puts a capture under the name of the interface it was set up on.
    /// Whether `inner` was set up on `interface` is the caller's to see
    /// to: a capture does not say what it is bound to.
    pub fn new(interface: &str, inner: C) -> (capture: Self)
        ensures
            capture.spec_inner() == inner,
            capture.spec_interface() == interface@,
    {
        WiFiCapture { inner, interface: String::from_str(interface) }
    }

    pub fn get_inner(&self) -> (inner: &C)
        ensures
            *inner == self.spec_inner(),
    {
        &self.inner
    }

    pub fn get_inner_mut(&mut self) -> (inner: &mut C)
        ensures
            *inner == old(self).spec_inner(),
            final(self).spec_inner() == *final(inner),
            final(self).spec_interface() == old(self).spec_interface(),
    {
        &mut self.inner
    }

    /// The name of the interface that channel changes are asked for.
    pub fn interface(&self) -> (interface: &str)
        ensures
            interface@ == self.spec_interface(),
    {
        self.interface.as_str()
    }

    /// The command that asks for this capture's interface to be tuned.
    pub fn channel_command(&self, specification: ChannelSpecification) -> (command: ChannelCommand)
        ensures
            command.program@ == "iw"@,
            command.arguments.deep_view() == channel_arguments(
                self.spec_interface(),
                specification,
            ),
    {
        ChannelCommand::new(self.interface.as_str(), specification)
    }
}

impl<C: Capture> Capture for WiFiCapture<C> {
    type AsyncCaptureType = AsyncWiFiCapture<C::AsyncCaptureType>;

    /// A receive is the inner capture's receive.
    open spec fn receives(
        &self,
        before: Seq<u8>,
        after: Seq<u8>,
        received: std::io::Result<usize>,
    ) -> bool {
        self.spec_inner().receives(before, after, received)
    }

    /// A send is the inner capture's send.
    open spec fn sends(&self, bytes: Seq<u8>, sent: std::io::Result<usize>) -> bool {
        self.spec_inner().sends(bytes, sent)
    }

    /// The conversion converts the inner capture and keeps the name.
    open spec fn converts_to(&self, suspending: AsyncWiFiCapture<C::AsyncCaptureType>) -> bool {
        &&& self.spec_inner().converts_to(suspending.spec_inner())
        &&& suspending.spec_interface() == self.spec_interface()
    }

    fn recv(&self, buf: &mut [u8]) -> (received: std::io::Result<usize>) {
        self.inner.recv(buf)
    }

    fn send(&self, buf: &[u8]) -> (sent: std::io::Result<usize>) {
        self.inner.send(buf)
    }

    fn to_async(self) -> (suspending: AsyncWiFiCapture<C::AsyncCaptureType>) {
        AsyncWiFiCapture::with_sync_capture(self)
    }
}

impl<A> AsyncWiFiCapture<A> {
    pub closed spec fn spec_inner(&self) -> A {
        self.inner
    }

    pub closed spec fn spec_interface(&self) -> Seq<char> {
        self.interface@
    }

    /// Converts a blocking wireless capture. The inner capture converts
    /// itself and the name moves over as it is; the interface is not
    /// looked up again.
    pub fn with_sync_capture<C: Capture<AsyncCaptureType = A>>(
        sync_capture: WiFiCapture<C>,
    ) -> (suspending: Self)
        ensures
            sync_capture.spec_inner().converts_to(suspending.spec_inner()),
            suspending.spec_interface() == sync_capture.spec_interface(),
    {
        AsyncWiFiCapture { inner: sync_capture.inner.to_async(), interface: sync_capture.interface }
    }

    pub fn get_inner(&self) -> (inner: &A)
        ensures
            *inner == self.spec_inner(),
    {
        &self.inner
    }

    pub fn get_inner_mut(&mut self) -> (inner: &mut A)
        ensures
            *inner == old(self).spec_inner(),
            final(self).spec_inner() == *final(inner),
            final(self).spec_interface() == old(self).spec_interface(),
    {
        &mut self.inner
    }

    /// The name of the interface that channel changes are asked for.
    pub fn interface(&self) -> (interface: &str)
        ensures
            interface@ == self.spec_interface(),
    {
        self.interface.as_str()
    }

    /// The command that asks for this capture's interface to be tuned.
    pub fn channel_command(&self, specification: ChannelSpecification) -> (command: ChannelCommand)
        ensures
            command.program@ == "iw"@,
            command.arguments.deep_view() == channel_arguments(
                self.spec_interface(),
                specification,
            ),
    {
        ChannelCommand::new(self.interface.as_str(), specification)
    }
}

} // verus!
