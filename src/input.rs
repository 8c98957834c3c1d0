//! The sixteen-key keypad and the one-shot "wait for a key" protocol through
//! which the processor blocks until a key goes down.

use vstd::prelude::*;

verus! {

/// Number of keys on the keypad, and of registers a key code can go to.
pub const KEY_COUNT: usize = 16;

/// The answer to a key request: the key that went down and the register that
/// asked for it.
#[derive(Clone, Copy, Debug, PartialEq, Eq, Structural)]
pub struct KeyRequestResponse {
    /// The key that was pressed.
    pub key_code: u8,
    /// The register that receives the key code.
    pub register: usize,
}

/// What an [`Input`] holds.
pub struct InputView {
    /// Whether each key is down.
    pub keys: Seq<bool>,
    /// Whether a key request is pending.
    pub waiting: bool,
    /// The register of the latest key request.
    pub request_reg: usize,
    /// The answer not yet taken, if any.
    pub response: Option<KeyRequestResponse>,
}

/// The state after key `key_code` is reported as `pressed`: nothing changes
/// unless the key's state changes; a key going down while a request is
/// pending ends the wait and leaves an answer for the requesting register.
pub open spec fn key_updated(s: InputView, key_code: u8, pressed: bool) -> InputView {
    if s.keys[key_code as int] == pressed {
        s
    } else if pressed && s.waiting {
        InputView {
            keys: s.keys.update(key_code as int, pressed),
            waiting: false,
            response: Some(KeyRequestResponse { key_code, register: s.request_reg }),
            ..s
        }
    } else {
        InputView { keys: s.keys.update(key_code as int, pressed), ..s }
    }
}

/// The state after a key is requested for `register`.
pub open spec fn key_requested(s: InputView, register: usize) -> InputView {
    InputView { waiting: true, request_reg: register, ..s }
}

/// The state after the pending answer is taken.
pub open spec fn response_taken(s: InputView) -> InputView {
    InputView { response: None, ..s }
}

/// The keypad state and the pending key request, if any.
pub struct Input {
    state: [bool; KEY_COUNT],
    waiting: bool,
    request_reg: usize,
    request_response: Option<KeyRequestResponse>,
}

impl View for Input {
    type V = InputView;

    closed spec fn view(&self) -> InputView {
        InputView {
            keys: self.state@,
            waiting: self.waiting,
            request_reg: self.request_reg,
            response: self.request_response,
        }
    }
}

impl Input {
    /// Sixteen keys, the register of a request below [`KEY_COUNT`], and an
    /// answer, if any, naming a key and a register below [`KEY_COUNT`].
    pub open spec fn wf(&self) -> bool {
        &&& self@.keys.len() == KEY_COUNT
        &&& self@.request_reg < KEY_COUNT
        &&& self@.response matches Some(r) ==> r.key_code < KEY_COUNT && r.register < KEY_COUNT
    }

    /// All keys up, no request pending.
    pub fn new() -> (r: Self)
        ensures
            r.wf(),
            r@.keys == Seq::new(KEY_COUNT as nat, |i: int| false),
            !r@.waiting,
            r@.request_reg == 0,
            r@.response is None,
    {
        let r = Input {
            state: [false; KEY_COUNT],
            waiting: false,
            request_reg: 0,
            request_response: None,
        };
        assert(r@.keys =~= Seq::new(KEY_COUNT as nat, |i: int| false));
        r
    }

    /// An input with the given key states and request state, if the
    /// register and any answer name registers and keys below [`KEY_COUNT`].
    pub fn from_parts(
        keys: [bool; KEY_COUNT],
        waiting: bool,
        request_reg: usize,
        response: Option<KeyRequestResponse>,
    ) -> (r: Option<Self>)
        ensures
            r is Some <==> (request_reg < KEY_COUNT && (response matches Some(a) ==> a.key_code
                < KEY_COUNT && a.register < KEY_COUNT)),
            r matches Some(i) ==> i.wf() && i@ == (InputView {
                keys: keys@,
                waiting,
                request_reg,
                response,
            }),
    {
        if request_reg >= KEY_COUNT {
            return None;
        }
        match response {
            Some(a) => {
                if a.key_code as usize >= KEY_COUNT || a.register >= KEY_COUNT {
                    return None;
                }
            },
            None => {},
        }
        Some(Input { state: keys, waiting, request_reg, request_response: response })
    }

    /// Whether each key is down.
    pub fn keys(&self) -> (r: [bool; KEY_COUNT])
        ensures
            r@ == self@.keys,
    {
        self.state
    }

    /// The register of the latest key request.
    pub fn request_reg(&self) -> (r: usize)
        ensures
            r == self@.request_reg,
    {
        self.request_reg
    }

    /// The answer not yet taken, if any, left in place.
    pub fn pending_response(&self) -> (r: Option<KeyRequestResponse>)
        ensures
            r == self@.response,
    {
        self.request_response
    }

    /// Reports key `key_code` as down (`pressed`) or up. Only a change of the
    /// key's state counts; a key going down while a request is pending
    /// answers it.
    pub fn update(&mut self, key_code: u8, pressed: bool)
        requires
            old(self).wf(),
            key_code < KEY_COUNT,
        ensures
            final(self).wf(),
            final(self)@ == key_updated(old(self)@, key_code, pressed),
    {
        let key_index = key_code as usize;
        if self.state[key_index] == pressed {
            return;
        }
        self.state[key_index] = pressed;
        if pressed && self.waiting {
            self.waiting = false;
            self.request_response = Some(KeyRequestResponse { key_code, register: self.request_reg });
        }
        assert(self@.keys =~= old(self)@.keys.update(key_code as int, pressed));
    }

    /// Asks for the next key to go down to be delivered to `register`.
    pub fn request_key_press(&mut self, register: usize)
        requires
            old(self).wf(),
            register < KEY_COUNT,
        ensures
            final(self).wf(),
            final(self)@ == key_requested(old(self)@, register),
    {
        self.waiting = true;
        self.request_reg = register;
    }

    /// Takes the answer to the last request, if one is pending; a second call
    /// returns `None` until another request is answered.
    pub fn request_response(&mut self) -> (r: Option<KeyRequestResponse>)
        requires
            old(self).wf(),
        ensures
            final(self).wf(),
            r == old(self)@.response,
            final(self)@ == response_taken(old(self)@),
    {
        self.request_response.take()
    }

    /// Whether a key request is pending.
    pub fn waiting(&self) -> (r: bool)
        ensures
            r == self@.waiting,
    {
        self.waiting
    }

    /// Whether key `key_code` is down; no key exists for codes from
    /// [`KEY_COUNT`] on.
    pub fn is_key_pressed(&self, key_code: u8) -> (r: bool)
        requires
            self.wf(),
        ensures
            r == (key_code < KEY_COUNT && self@.keys[key_code as int]),
    {
        key_code < 16 && self.state[key_code as usize]
    }
}

/// A key request for register `register` followed by key `key_code` going
/// down yields exactly one answer naming that key and register: taking it
/// once gives it, taking it again gives nothing.
pub proof fn lemma_request_answered_once(s: InputView, register: usize, key_code: u8)
    requires
        s.keys.len() == KEY_COUNT,
        key_code < KEY_COUNT,
        !s.keys[key_code as int],
    ensures
        ({
            let answered = key_updated(key_requested(s, register), key_code, true);
            &&& !answered.waiting
            &&& answered.response == Some(KeyRequestResponse { key_code, register })
            &&& response_taken(answered).response is None
        }),
{
}

} // verus!
