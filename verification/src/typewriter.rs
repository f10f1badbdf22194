use vstd::prelude::*;
use vstd::string::StrSliceExecFns;

use crate::animation::State;

verus! {

/// The reveal coupling: tracks how many characters of the newest message are
/// visible and reports which animation state the reveal progress calls for.
pub struct Typewriter {
    pub current_message_index: usize,
    pub visible_chars: usize,
    pub last_char_time: i64,
    pub char_delay_ms: i64,
    pub messages: Vec<String>,
}

impl Typewriter {
    /// Well formed: the index points into the messages, no more characters are
    /// visible than the current message has, the clock is nonnegative, and the
    /// per-character delay is the fixed 75ms.
    pub open spec fn wf(self) -> bool {
        &&& self.messages@.len() > 0 ==> self.current_message_index < self.messages@.len()
        &&& self.messages@.len() > 0 ==> self.visible_chars
            <= self.messages@[self.current_message_index as int]@.len()
        &&& self.last_char_time >= 0
        &&& self.char_delay_ms == 75
    }

    /// An empty typewriter: no messages, nothing revealed, 75ms between characters.
    pub fn new(now_ms: i64) -> (t: Typewriter)
        requires
            now_ms >= 0,
        ensures
            t.wf(),
            t.messages@.len() == 0,
            t.current_message_index == 0,
            t.visible_chars == 0,
            t.last_char_time == now_ms,
            t.char_delay_ms == 75,
    {
        Typewriter {
            current_message_index: 0,
            visible_chars: 0,
            last_char_time: now_ms,
            char_delay_ms: 75,
            messages: Vec::new(),
        }
    }

    /// One reveal tick. With no messages the avatar is Idle. Once the delay has
    /// elapsed, either the next character is revealed — Talking — or the message
    /// is fully revealed — Idle. Between delays nothing is reported or changed.
    pub fn update_typewriter(&mut self, now_ms: i64) -> (out: Option<State>)
        requires
            old(self).wf(),
            now_ms >= 0,
        ensures
            final(self).wf(),
            old(self).messages@.len() == 0 ==> out == Some(State::IDLE) && *final(self) == *old(
                self,
            ),
            old(self).messages@.len() > 0 ==> {
                let msg_len =
                    old(self).messages@[old(self).current_message_index as int]@.len();
                if now_ms - old(self).last_char_time >= old(self).char_delay_ms {
                    if old(self).visible_chars < msg_len {
                        &&& out == Some(State::TALKING)
                        &&& final(self).visible_chars == old(self).visible_chars + 1
                        &&& final(self).last_char_time == now_ms
                        &&& final(self).messages == old(self).messages
                        &&& final(self).current_message_index == old(
                            self,
                        ).current_message_index
                        &&& final(self).char_delay_ms == old(self).char_delay_ms
                    } else {
                        out == Some(State::IDLE) && *final(self) == *old(self)
                    }
                } else {
                    out is None && *final(self) == *old(self)
                }
            },
    {
        if self.messages.len() == 0 {
            return Some(State::IDLE);
        }
        if now_ms - self.last_char_time >= self.char_delay_ms {
            let count = self.messages[self.current_message_index].as_str().unicode_len();
            if self.visible_chars < count {
                self.visible_chars = self.visible_chars + 1;
                self.last_char_time = now_ms;
                Some(State::TALKING)
            } else {
                Some(State::IDLE)
            }
        } else {
            None
        }
    }

    /// Starts revealing the newest message from its first character.
    fn start_new_message(&mut self, now_ms: i64)
        requires
            now_ms >= 0,
        ensures
            old(self).messages@.len() > 0 ==> {
                &&& final(self).current_message_index == old(self).messages@.len() - 1
                &&& final(self).visible_chars == 0
                &&& final(self).last_char_time == now_ms
                &&& final(self).messages == old(self).messages
                &&& final(self).char_delay_ms == old(self).char_delay_ms
            },
            old(self).messages@.len() == 0 ==> *final(self) == *old(self),
    {
        if self.messages.len() > 0 {
            self.current_message_index = self.messages.len() - 1;
            self.visible_chars = 0;
            self.last_char_time = now_ms;
        }
    }

    /// Appends a message and starts revealing it from its first character.
    pub fn add_message(&mut self, message: String, now_ms: i64)
        requires
            old(self).wf(),
            now_ms >= 0,
        ensures
            final(self).wf(),
            final(self).messages@ == old(self).messages@.push(message),
            final(self).current_message_index == old(self).messages@.len(),
            final(self).visible_chars == 0,
            final(self).last_char_time == now_ms,
            final(self).char_delay_ms == old(self).char_delay_ms,
    {
        self.messages.push(message);
        self.start_new_message(now_ms);
    }

    /// The revealed part of the current message: its first `visible_chars`
    /// characters, or nothing while no message exists.
    pub fn visible_text(&self) -> (r: String)
        requires
            self.wf(),
        ensures
            self.messages@.len() == 0 ==> r@ == Seq::<char>::empty(),
            self.messages@.len() > 0 ==> r@ == self.messages@[self.current_message_index as int]@
                .take(self.visible_chars as int),
    {
        if self.messages.len() == 0 {
            String::new()
        } else {
            let m = &self.messages[self.current_message_index];
            let s = m.as_str().substring_char(0, self.visible_chars);
            proof {
                assert(m@.subrange(0, self.visible_chars as int) == m@.take(
                    self.visible_chars as int,
                ));
            }
            s.to_owned()
        }
    }
}

} // verus!
