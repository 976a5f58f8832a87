//! Fixtures: one registered interest in a range of channels.

use vstd::prelude::*;
use vstd::slice::{slice_subrange, slice_to_vec};
use vstd::string::{StrSliceExecFns, StringExecFns};
use crate::error::RegisterError;

verus! {

/// Number of channels that one universe carries.
pub const UNIVERSE_CHANNELS: usize = 512;

/// A reference to an object of the host, by the host's own tag and number.
/// The host keeps the object alive; this value only names it.
#[derive(Clone, Copy, Debug, PartialEq, Eq, Structural)]
pub struct TargetHandle {
    pub tag: u8,
    pub data: u32,
}

impl TargetHandle {
    /// The host's null carries tag 0 and names no object.
    pub open spec fn names_nothing(self) -> bool {
        self.tag == 0
    }

    /// Whether this is the host's null.
    #[verifier::when_used_as_spec(names_nothing)]
    pub fn is_null(self) -> (null: bool)
        ensures
            null == self.names_nothing(),
    {
        self.tag == 0
    }
}

/// What a fixture is, as mathematics: the target, the method's name and the
/// inclusive range of 0-based channels.
pub struct FixtureView {
    pub target: TargetHandle,
    pub method: Seq<char>,
    pub start_channel: int,
    pub end_channel: int,
}

impl FixtureView {
    /// A fixture names an object and a method, and its range lies inside the universe.
    pub open spec fn wf(self) -> bool {
        &&& !self.target.names_nothing()
        &&& self.method.len() > 0
        &&& 0 <= self.start_channel <= self.end_channel < UNIVERSE_CHANNELS
    }

    /// The channel lies in the fixture's range.
    pub open spec fn covers(self, channel: int) -> bool {
        self.start_channel <= channel <= self.end_channel
    }

    /// One of the listed channels lies in the fixture's range.
    pub open spec fn is_affected(self, channels: Seq<usize>) -> bool {
        exists|k: int| 0 <= k < channels.len() && self.covers(#[trigger] channels[k] as int)
    }

    /// The fixture in a line of text: the method's name, a space, and the
    /// first and the last channel with a hyphen between them.
    pub open spec fn label(self) -> Seq<char> {
        self.method + seq![' '] + decimal(self.start_channel as nat) + seq!['-'] + decimal(
            self.end_channel as nat,
        )
    }

    /// Number of channels in the range.
    pub open spec fn footprint(self) -> int {
        self.end_channel - self.start_channel + 1
    }

    /// The part of a frame that the fixture is called with: the values of
    /// its whole range and of no other channel, in the frame's order. A
    /// frame that ends before the range does has no such part.
    pub open spec fn values(self, channels: Seq<u8>) -> Option<Seq<u8>> {
        if self.end_channel < channels.len() {
            Some(channels.subrange(self.start_channel, self.end_channel + 1))
        } else {
            None
        }
    }
}

/// Where the final segment of a slash-delimited path starts: behind its last
/// slash, or at 0 where it has none.
pub open spec fn segment_start(path: Seq<char>) -> int
    decreases path.len(),
{
    if path.len() == 0 {
        0
    } else if path.last() == '/' {
        path.len() as int
    } else {
        segment_start(path.drop_last())
    }
}

/// The final segment of a slash-delimited path: the name of the method.
pub open spec fn method_name(path: Seq<char>) -> Seq<char> {
    path.subrange(segment_start(path), path.len() as int)
}

/// The final segment starts at `start` exactly where no slash follows
/// `start` and one stands just before it, or the path begins there.
pub proof fn lemma_segment_start(path: Seq<char>, start: int)
    requires
        0 <= start <= path.len(),
        forall|j: int| start <= j < path.len() ==> path[j] != '/',
        start == 0 || path[start - 1] == '/',
    ensures
        segment_start(path) == start,
    decreases path.len(),
{
    if path.len() > 0 && path.last() != '/' {
        lemma_segment_start(path.drop_last(), start);
    }
}

/// The 0-based inclusive range that a 1-based start channel and a footprint
/// name, or why they name none.
pub open spec fn channel_range(start_channel: int, footprint: int) -> Result<
    (int, int),
    RegisterError,
> {
    if start_channel < 1 || start_channel > UNIVERSE_CHANNELS {
        Err(RegisterError::InvalidChannel)
    } else if footprint < 1 {
        Err(RegisterError::InvalidFootprint)
    } else if start_channel + footprint - 1 > UNIVERSE_CHANNELS {
        Err(RegisterError::InvalidChannel)
    } else {
        Ok((start_channel - 1, start_channel + footprint - 2))
    }
}

/// The fixture that a registration describes, or the first reason against
/// it: the target is looked at first, then the path, then the channels.
pub open spec fn described_fixture(
    target: TargetHandle,
    method_path: Seq<char>,
    start_channel: int,
    footprint: int,
) -> Result<FixtureView, RegisterError> {
    if target.names_nothing() {
        Err(RegisterError::InvalidTarget)
    } else if method_name(method_path).len() == 0 {
        Err(RegisterError::InvalidMethodName)
    } else {
        match channel_range(start_channel, footprint) {
            Err(e) => Err(e),
            Ok((first, last)) => Ok(
                FixtureView {
                    target,
                    method: method_name(method_path),
                    start_channel: first,
                    end_channel: last,
                },
            ),
        }
    }
}

/// The final segment of `path`, which names the method to call.
pub fn final_segment(path: &str) -> (name: String)
    ensures
        name@ == method_name(path@),
{
    let len: usize = path.unicode_len();
    let mut start: usize = len;
    while start > 0 && path.get_char(start - 1) != '/'
        invariant
            start <= len == path@.len(),
            forall|j: int| start <= j < len ==> path@[j] != '/',
        decreases start,
    {
        start -= 1;
    }
    proof {
        lemma_segment_start(path@, start as int);
    }
    path.substring_char(start, len).to_owned()
}

/// Turns a 1-based start channel and a footprint into the 0-based inclusive
/// range of channels.
pub fn checked_range(start_channel: usize, footprint: usize) -> (range: Result<
    (usize, usize),
    RegisterError,
>)
    ensures
        match channel_range(start_channel as int, footprint as int) {
            Ok((first, last)) => range matches Ok(made) && made.0 == first && made.1 == last,
            Err(e) => range matches Err(given) && given == e,
        },
{
    if start_channel == 0 || start_channel > UNIVERSE_CHANNELS {
        return Err(RegisterError::InvalidChannel);
    }
    let first: usize = start_channel - 1;
    if footprint == 0 {
        return Err(RegisterError::InvalidFootprint);
    }
    if footprint > UNIVERSE_CHANNELS - first {
        return Err(RegisterError::InvalidChannel);
    }
    Ok((first, first + footprint - 1))
}

/// The character of one decimal digit.
pub open spec fn digit_char(digit: nat) -> char {
    if digit == 0 {
        '0'
    } else if digit == 1 {
        '1'
    } else if digit == 2 {
        '2'
    } else if digit == 3 {
        '3'
    } else if digit == 4 {
        '4'
    } else if digit == 5 {
        '5'
    } else if digit == 6 {
        '6'
    } else if digit == 7 {
        '7'
    } else if digit == 8 {
        '8'
    } else {
        '9'
    }
}

/// A number written in decimal, without leading zeros.
pub open spec fn decimal(n: nat) -> Seq<char>
    decreases n,
{
    if n < 10 {
        seq![digit_char(n)]
    } else {
        decimal(n / 10).push(digit_char(n % 10))
    }
}

/// One decimal digit as text.
fn digit_text(digit: usize) -> (text: &'static str)
    requires
        digit < 10,
    ensures
        text@ == seq![digit_char(digit as nat)],
{
    proof {
        reveal_strlit("0");
        reveal_strlit("1");
        reveal_strlit("2");
        reveal_strlit("3");
        reveal_strlit("4");
        reveal_strlit("5");
        reveal_strlit("6");
        reveal_strlit("7");
        reveal_strlit("8");
        reveal_strlit("9");
    }
    let text: &'static str = if digit == 0 {
        "0"
    } else if digit == 1 {
        "1"
    } else if digit == 2 {
        "2"
    } else if digit == 3 {
        "3"
    } else if digit == 4 {
        "4"
    } else if digit == 5 {
        "5"
    } else if digit == 6 {
        "6"
    } else if digit == 7 {
        "7"
    } else if digit == 8 {
        "8"
    } else {
        "9"
    };
    assert(text@ =~= seq![digit_char(digit as nat)]);
    text
}

/// Writes a number in decimal.
pub fn decimal_text(n: usize) -> (text: String)
    ensures
        text@ == decimal(n as nat),
    decreases n,
{
    if n < 10 {
        digit_text(n).to_owned()
    } else {
        let mut text = decimal_text(n / 10);
        text.append(digit_text(n % 10));
        assert(text@ =~= decimal((n / 10) as nat).push(digit_char((n % 10) as nat)));
        text
    }
}

/// One registered interest: a method of a host object that wants the values
/// of channels `start_channel..=end_channel`.
#[derive(Debug)]
pub struct DMXFixture {
    target: TargetHandle,
    method: String,
    start_channel: usize,
    end_channel: usize,
}

impl View for DMXFixture {
    type V = FixtureView;

    closed spec fn view(&self) -> FixtureView {
        FixtureView {
            target: self.target,
            method: self.method@,
            start_channel: self.start_channel as int,
            end_channel: self.end_channel as int,
        }
    }
}

impl DMXFixture {
    /// The fixture names an object and a method, and its range lies inside
    /// the universe. This holds of every fixture there is: `new` is the only
    /// way to make one.
    #[verifier::type_invariant]
    pub open spec fn wf(&self) -> bool {
        self@.wf()
    }

    /// Checks a registration and builds its fixture. `method_path` is a
    /// slash-delimited path of which the final segment is kept;
    /// `start_channel` counts from 1.
    pub fn new(
        target: TargetHandle,
        method_path: &str,
        start_channel: usize,
        footprint: usize,
    ) -> (made: Result<DMXFixture, RegisterError>)
        ensures
            match described_fixture(target, method_path@, start_channel as int, footprint as int) {
                Ok(fixture) => made matches Ok(built) && built@ == fixture,
                Err(e) => made matches Err(given) && given == e,
            },
            made matches Ok(built) ==> built.wf(),
    {
        if target.is_null() {
            return Err(RegisterError::InvalidTarget);
        }
        let method = final_segment(method_path);
        if method.as_str().unicode_len() == 0 {
            return Err(RegisterError::InvalidMethodName);
        }
        match checked_range(start_channel, footprint) {
            Err(e) => Err(e),
            Ok((first, last)) => Ok(
                DMXFixture { target, method, start_channel: first, end_channel: last },
            ),
        }
    }

    /// Whether any of `channels` lies in this fixture's range.
    pub fn is_affected(&self, channels: &Vec<usize>) -> (affected: bool)
        ensures
            affected == self@.is_affected(channels@),
    {
        let mut k: usize = 0;
        while k < channels.len()
            invariant
                k <= channels.len(),
                forall|j: int| 0 <= j < k ==> !self@.covers(#[trigger] channels@[j] as int),
            decreases channels.len() - k,
        {
            let c: usize = channels[k];
            if self.start_channel <= c && c <= self.end_channel {
                return true;
            }
            k += 1;
        }
        false
    }

    /// The object of the host that is called.
    pub fn target(&self) -> (target: TargetHandle)
        ensures
            target == self@.target,
            self.wf(),
    {
        proof {
            use_type_invariant(self);
        }
        self.target
    }

    /// The name of the method that is called.
    pub fn method(&self) -> (method: String)
        ensures
            method@ == self@.method,
            self.wf(),
    {
        proof {
            use_type_invariant(self);
        }
        self.method.clone()
    }

    /// The first channel of the range, counted from 0.
    pub fn start_channel(&self) -> (channel: usize)
        ensures
            channel == self@.start_channel,
            self.wf(),
    {
        proof {
            use_type_invariant(self);
        }
        self.start_channel
    }

    /// The last channel of the range, counted from 0.
    pub fn end_channel(&self) -> (channel: usize)
        ensures
            channel == self@.end_channel,
            self.wf(),
    {
        proof {
            use_type_invariant(self);
        }
        self.end_channel
    }

    /// The fixture in a line of text, as `update 0-3`.
    pub fn describe(&self) -> (text: String)
        ensures
            text@ == self@.label(),
    {
        proof {
            reveal_strlit(" ");
            reveal_strlit("-");
        }
        let mut text = self.method.clone();
        text.append(" ");
        text.append(decimal_text(self.start_channel).as_str());
        text.append("-");
        text.append(decimal_text(self.end_channel).as_str());
        assert(text@ =~= self@.label());
        text
    }

    /// The values of `channels` that this fixture is called with: those of
    /// its whole range, or `None` where `channels` ends before the range does.
    pub fn values(&self, channels: &Vec<u8>) -> (part: Option<Vec<u8>>)
        ensures
            match part {
                Some(values) => self@.values(channels@) == Some(values@),
                None => self@.values(channels@) is None,
            },
    {
        proof {
            use_type_invariant(self);
        }
        if self.end_channel < channels.len() {
            let part = slice_subrange(
                channels.as_slice(),
                self.start_channel,
                self.end_channel + 1,
            );
            Some(slice_to_vec(part))
        } else {
            None
        }
    }
}

impl Clone for DMXFixture {
    fn clone(&self) -> (copy: Self)
        ensures
            copy@ == self@,
    {
        proof {
            use_type_invariant(self);
        }
        DMXFixture {
            target: self.target,
            method: self.method.clone(),
            start_channel: self.start_channel,
            end_channel: self.end_channel,
        }
    }
}

} // verus!
