use vstd::prelude::*;

verus! {

/// The eight NES controller buttons, in the order the console reads them.
#[derive(Debug, Clone, Copy, PartialEq, Eq, Structural)]
pub enum Button {
    A,
    B,
    Select,
    Start,
    Up,
    Down,
    Left,
    Right,
}

/// Bit position of a button in the shift register (A is bit 0, Right is bit 7).
pub open spec fn button_bit(b: Button) -> u8 {
    match b {
        Button::A => 0,
        Button::B => 1,
        Button::Select => 2,
        Button::Start => 3,
        Button::Up => 4,
        Button::Down => 5,
        Button::Left => 6,
        Button::Right => 7,
    }
}

impl Button {
    /// The bit position of this button.
    pub fn bit(self) -> (r: u8)
        ensures
            r == button_bit(self),
            r < 8,
    {
        match self {
            Button::A => 0,
            Button::B => 1,
            Button::Select => 2,
            Button::Start => 3,
            Button::Up => 4,
            Button::Down => 5,
            Button::Left => 6,
            Button::Right => 7,
        }
    }
}

/// Mask with only bit `i` set.
pub open spec fn bit_mask(i: u8) -> u8 {
    (1u8 << i) as u8
}

/// The button state after pressing or releasing the button at bit `i`.
pub open spec fn with_button(state: u8, i: u8, pressed: bool) -> u8 {
    if pressed {
        state | bit_mask(i)
    } else {
        state & !bit_mask(i)
    }
}

/// Whether bit `i` of `state` is set.
pub open spec fn bit_set(state: u8, i: u8) -> bool {
    (state >> i) & 1 == 1
}

/// The turbo phase counter. It stays below 255, so advancing it never overflows.
struct TurboCounter {
    value: u8,
}

impl TurboCounter {
    #[verifier::type_invariant]
    spec fn below_max(self) -> bool {
        self.value < 255
    }
}

/// A standard NES controller with its serial read protocol and turbo buttons.
pub struct Joypad {
    strobe: bool,
    button_index: u8,
    button_state: u8,
    turbo_a: bool,
    turbo_b: bool,
    turbo_counter: TurboCounter,
    pub turbo_rate: u8,
}

impl Joypad {
    /// Whether the strobe line is high.
    pub closed spec fn strobe_on(&self) -> bool {
        self.strobe
    }

    /// Which button the next read reports (8 or more: all buttons read).
    pub closed spec fn index(&self) -> u8 {
        self.button_index
    }

    /// The pressed buttons, one bit each (bit `button_bit(b)` for button `b`).
    pub closed spec fn state(&self) -> u8 {
        self.button_state
    }

    /// Whether turbo A is held.
    pub closed spec fn turbo_a_held(&self) -> bool {
        self.turbo_a
    }

    /// Whether turbo B is held.
    pub closed spec fn turbo_b_held(&self) -> bool {
        self.turbo_b
    }

    /// The turbo period, in frames per half cycle.
    pub closed spec fn rate(&self) -> u8 {
        self.turbo_rate
    }

    /// The turbo phase counter.
    pub closed spec fn counter(&self) -> u8 {
        self.turbo_counter.value
    }

    /// The state and result of one serial read.
    pub open spec fn read_spec(self) -> (Joypad, u8) {
        if self.index() > 7 {
            (self, 1u8)
        } else {
            let r = ((self.state() >> self.index()) & 1) as u8;
            (self.with_index(if self.strobe_on() { self.index() } else { (self.index() + 1) as u8 }), r)
        }
    }

    /// The controller with only its read position changed.
    pub closed spec fn with_index(self, i: u8) -> Joypad {
        Joypad { button_index: i, ..self }
    }

    /// The state after a write of `data` to the controller port.
    pub open spec fn write_spec(self, data: u8) -> Joypad {
        let s = data & 1 == 1;
        self.with_strobe(s, if s { 0u8 } else { self.index() })
    }

    /// The controller with its strobe line and read position replaced.
    pub closed spec fn with_strobe(self, s: bool, i: u8) -> Joypad {
        Joypad { strobe: s, button_index: i, ..self }
    }

    /// The controller with its button state replaced.
    pub closed spec fn with_state(self, st: u8) -> Joypad {
        Joypad { button_state: st, ..self }
    }

    /// Moving the read position changes nothing else.
    pub proof fn lemma_with_index(self, i: u8)
        ensures
            self.with_index(i).index() == i,
            self.with_index(i).state() == self.state(),
            self.with_index(i).strobe_on() == self.strobe_on(),
            self.with_index(i).rate() == self.rate(),
            self.with_index(i).counter() == self.counter(),
            self.with_index(i).turbo_a_held() == self.turbo_a_held(),
            self.with_index(i).turbo_b_held() == self.turbo_b_held(),
    {
    }

    /// Setting the strobe line and read position changes nothing else.
    pub proof fn lemma_with_strobe(self, s: bool, i: u8)
        ensures
            self.with_strobe(s, i).index() == i,
            self.with_strobe(s, i).strobe_on() == s,
            self.with_strobe(s, i).state() == self.state(),
            self.with_strobe(s, i).rate() == self.rate(),
            self.with_strobe(s, i).counter() == self.counter(),
            self.with_strobe(s, i).turbo_a_held() == self.turbo_a_held(),
            self.with_strobe(s, i).turbo_b_held() == self.turbo_b_held(),
    {
    }

    /// The controller after one turbo update: the phase counter advances modulo twice
    /// the rate, and a held turbo button is pressed during the first half of the cycle
    /// and released during the second.
    pub closed spec fn after_turbo(self) -> Joypad {
        let counter = ((self.turbo_counter.value + 1) % (self.turbo_rate * 2)) as u8;
        let on = counter < self.turbo_rate;
        let s0 = self.button_state;
        let s1 = with_button(s0, 0, if self.turbo_a { on } else { bit_set(s0, 0) });
        let s2 = with_button(s1, 1, if self.turbo_b { on } else { bit_set(s1, 1) });
        Joypad { turbo_counter: TurboCounter { value: counter }, button_state: s2, ..self }
    }

    /// What a turbo update changes: the counter and the two turbo buttons' bits.
    pub proof fn lemma_after_turbo(self)
        requires
            0 < self.rate() <= 127,
        ensures
            self.after_turbo().counter() == (self.counter() + 1) % (self.rate() * 2),
            self.after_turbo().state() == with_button(
                with_button(
                    self.state(),
                    0,
                    if self.turbo_a_held() { self.after_turbo().counter() < self.rate() } else { bit_set(self.state(), 0) },
                ),
                1,
                if self.turbo_b_held() { self.after_turbo().counter() < self.rate() } else { bit_set(self.state(), 1) },
            ),
            self.after_turbo().turbo_a_held() == self.turbo_a_held(),
            self.after_turbo().turbo_b_held() == self.turbo_b_held(),
            self.after_turbo().strobe_on() == self.strobe_on(),
            self.after_turbo().index() == self.index(),
            self.after_turbo().rate() == self.rate(),
    {
        let s0 = self.button_state;
        let on = self.after_turbo().counter() < self.turbo_rate;
        let a_on = if self.turbo_a { on } else { bit_set(s0, 0) };
        assert(bit_set(with_button(s0, 0, a_on), 1) == bit_set(s0, 1)) by (bit_vector);
    }

    /// A controller with no buttons pressed, strobe low, turbo off and a turbo rate of 2.
    pub closed spec fn initial() -> Joypad {
        Joypad {
            strobe: false,
            button_index: 0,
            button_state: 0,
            turbo_a: false,
            turbo_b: false,
            turbo_counter: TurboCounter { value: 0 },
            turbo_rate: 2,
        }
    }

    /// What a freshly connected controller holds.
    pub proof fn lemma_initial()
        ensures
            !Joypad::initial().strobe_on(),
            Joypad::initial().index() == 0,
            Joypad::initial().state() == 0,
            !Joypad::initial().turbo_a_held(),
            !Joypad::initial().turbo_b_held(),
            Joypad::initial().counter() == 0,
            Joypad::initial().rate() == 2,
    {
    }

    /// A freshly connected controller (see `initial`).
    pub fn new() -> (r: Self)
        ensures
            r == Joypad::initial(),
            !r.strobe_on(),
            r.index() == 0,
            r.state() == 0,
            !r.turbo_a_held(),
            !r.turbo_b_held(),
            r.counter() == 0,
            r.rate() == 2,
    {
        Self {
            strobe: false,
            button_index: 0,
            button_state: 0,
            turbo_a: false,
            turbo_b: false,
            turbo_counter: TurboCounter { value: 0 },
            turbo_rate: 2,
        }
    }

    /// Holds or releases turbo A; releasing it also releases A.
    pub fn set_turbo_a(&mut self, held: bool)
        ensures
            final(self).turbo_a_held() == held,
            final(self).turbo_b_held() == old(self).turbo_b_held(),
            final(self).state() == (if held { old(self).state() } else { with_button(old(self).state(), 0, false) }),
            final(self).strobe_on() == old(self).strobe_on(),
            final(self).index() == old(self).index(),
            final(self).counter() == old(self).counter(),
            final(self).rate() == old(self).rate(),
    {
        self.turbo_a = held;
        if !held {
            self.set_button(Button::A, false);
        }
    }

    /// Holds or releases turbo B; releasing it also releases B.
    pub fn set_turbo_b(&mut self, held: bool)
        ensures
            final(self).turbo_b_held() == held,
            final(self).turbo_a_held() == old(self).turbo_a_held(),
            final(self).state() == (if held { old(self).state() } else { with_button(old(self).state(), 1, false) }),
            final(self).strobe_on() == old(self).strobe_on(),
            final(self).index() == old(self).index(),
            final(self).counter() == old(self).counter(),
            final(self).rate() == old(self).rate(),
    {
        self.turbo_b = held;
        if !held {
            self.set_button(Button::B, false);
        }
    }

    /// Advances the turbo phase by one frame: the counter runs modulo twice the rate,
    /// and each held turbo button is pressed during the first half of the period.
    pub fn update_turbo(&mut self)
        requires
            0 < old(self).rate() <= 127,
        ensures
            *final(self) == old(self).after_turbo(),
            final(self).counter() == (old(self).counter() + 1) % (old(self).rate() * 2),
            final(self).state() == with_button(
                with_button(
                    old(self).state(),
                    0,
                    if old(self).turbo_a_held() { final(self).counter() < old(self).rate() } else { bit_set(old(self).state(), 0) },
                ),
                1,
                if old(self).turbo_b_held() { final(self).counter() < old(self).rate() } else { bit_set(old(self).state(), 1) },
            ),
            final(self).turbo_a_held() == old(self).turbo_a_held(),
            final(self).turbo_b_held() == old(self).turbo_b_held(),
            final(self).strobe_on() == old(self).strobe_on(),
            final(self).index() == old(self).index(),
            final(self).rate() == old(self).rate(),
    {
        proof {
            use_type_invariant(&self.turbo_counter);
        }
        let next = (self.turbo_counter.value + 1) % (self.turbo_rate * 2);
        self.turbo_counter = TurboCounter { value: next };
        let turbo_on = next < self.turbo_rate;
        let ghost s0 = self.button_state;
        if self.turbo_a {
            self.set_button(Button::A, turbo_on);
        } else {
            assert(with_button(s0, 0, bit_set(s0, 0)) == s0) by (bit_vector);
        }
        let ghost s1 = self.button_state;
        if self.turbo_b {
            self.set_button(Button::B, turbo_on);
        } else {
            assert(with_button(s1, 1, bit_set(s1, 1)) == s1) by (bit_vector);
        }
        proof {
            let a_on = if self.turbo_a { turbo_on } else { bit_set(s0, 0) };
            assert(bit_set(with_button(s0, 0, a_on), 1) == bit_set(s0, 1)) by (bit_vector);
        }
    }

    /// Writes the strobe bit: while it is high the read position stays at A.
    pub fn write(&mut self, data: u8)
        ensures
            *final(self) == old(self).write_spec(data),
    {
        self.strobe = data & 1 == 1;
        if self.strobe {
            self.button_index = 0;
        }
    }

    /// Reads the next button bit: 1 when pressed, 0 when not, 1 once all eight are read.
    pub fn read(&mut self) -> (r: u8)
        ensures
            (*final(self), r) == old(self).read_spec(),
    {
        if self.button_index > 7 {
            return 1;
        }
        let result = (self.button_state >> self.button_index) & 1;
        if !self.strobe {
            self.button_index += 1;
        }
        result
    }

    /// Presses or releases one button.
    pub fn set_button(&mut self, button: Button, pressed: bool)
        ensures
            *final(self) == old(self).with_state(with_button(old(self).state(), button_bit(button), pressed)),
            final(self).state() == with_button(old(self).state(), button_bit(button), pressed),
            final(self).strobe_on() == old(self).strobe_on(),
            final(self).index() == old(self).index(),
            final(self).counter() == old(self).counter(),
            final(self).turbo_a_held() == old(self).turbo_a_held(),
            final(self).turbo_b_held() == old(self).turbo_b_held(),
            final(self).rate() == old(self).rate(),
    {
        let b = button.bit();
        if pressed {
            self.button_state |= 1u8 << b;
        } else {
            self.button_state &= !(1u8 << b);
        }
    }
}

/// The bits `n` successive reads return, from the first read on.
pub open spec fn reads(j: Joypad, n: nat) -> Seq<u8>
    decreases n,
{
    if n == 0 {
        Seq::empty()
    } else {
        let (j2, v) = j.read_spec();
        seq![v] + reads(j2, (n - 1) as nat)
    }
}

/// The bit a read reports for button number `k` of a button state: the button's bit
/// for the eight buttons, 1 after them.
pub open spec fn report_bit(state: u8, k: int) -> u8 {
    if k < 8 {
        ((state >> (k as u8)) & 1) as u8
    } else {
        1
    }
}

proof fn lemma_reads_from(j: Joypad, n: nat)
    requires
        !j.strobe_on(),
        j.index() <= 8,
    ensures
        forall|k: int| 0 <= k < n ==> #[trigger] reads(j, n)[k] == report_bit(j.state(), j.index() + k),
        reads(j, n).len() == n,
    decreases n,
{
    if n > 0 {
        let (j2, v) = j.read_spec();
        if j.index() > 7 {
            lemma_reads_from(j2, (n - 1) as nat);
        } else {
            j.lemma_with_index((j.index() + 1) as u8);
            lemma_reads_from(j2, (n - 1) as nat);
        }
        assert forall|k: int| 0 <= k < n implies #[trigger] reads(j, n)[k] == report_bit(
            j.state(),
            j.index() + k,
        ) by {
            if k > 0 {
                assert(reads(j, n)[k] == reads(j2, (n - 1) as nat)[k - 1]);
            }
        }
    }
}

/// After the strobe is raised and lowered, successive reads report A, B, Select, Start,
/// Up, Down, Left and Right (1 when pressed), then 1 on every further read.
pub proof fn lemma_strobe_then_reads(j: Joypad, high: u8, low: u8, n: nat)
    requires
        high & 1 == 1,
        low & 1 == 0,
    ensures
        ({
            let r = reads(j.write_spec(high).write_spec(low), n);
            &&& r.len() == n
            &&& forall|k: int| 0 <= k < n ==> #[trigger] r[k] == report_bit(j.state(), k)
        }),
{
    let j1 = j.write_spec(high);
    j.lemma_with_strobe(true, 0);
    let j2 = j1.write_spec(low);
    j1.lemma_with_strobe(false, 0);
    lemma_reads_from(j2, n);
}

/// While the strobe is high, every read reports button A and leaves the controller as it was.
pub proof fn lemma_strobe_high_reads_a(j: Joypad, high: u8)
    requires
        high & 1 == 1,
    ensures
        j.write_spec(high).read_spec() == (j.write_spec(high), report_bit(j.state(), 0)),
{
    j.lemma_with_strobe(true, 0);
    let j1 = j.write_spec(high);
    j1.lemma_with_index(0);
    assert(j1.with_index(0) == j1);
}

/// The controller after `n` turbo updates.
pub open spec fn turbo_updates(j: Joypad, n: nat) -> Joypad
    decreases n,
{
    if n == 0 {
        j
    } else {
        turbo_updates(j, (n - 1) as nat).after_turbo()
    }
}

proof fn lemma_turbo_bits(s: u8, a: bool, b: bool)
    by (bit_vector)
    ensures
        bit_set(with_button(with_button(s, 0, a), 1, b), 0) == a,
        bit_set(with_button(with_button(s, 0, a), 1, b), 1) == b,
        with_button(with_button(s, 0, a), 1, b) & 0xFC == s & 0xFC,
        bit_set(with_button(s, 0, a), 1) == bit_set(s, 1),
{
}

/// A turbo update changes only the A and B bits of the button state: A only while
/// turbo A is held and B only while turbo B is held, a held turbo button being pressed
/// exactly while the new counter is below the rate.
pub proof fn lemma_turbo_buttons(j: Joypad)
    requires
        0 < j.rate() <= 127,
    ensures
        j.after_turbo().state() & 0xFC == j.state() & 0xFC,
        !j.turbo_a_held() ==> bit_set(j.after_turbo().state(), 0) == bit_set(j.state(), 0),
        !j.turbo_b_held() ==> bit_set(j.after_turbo().state(), 1) == bit_set(j.state(), 1),
        j.turbo_a_held() ==> bit_set(j.after_turbo().state(), 0) == (j.after_turbo().counter() < j.rate()),
        j.turbo_b_held() ==> bit_set(j.after_turbo().state(), 1) == (j.after_turbo().counter() < j.rate()),
{
    j.lemma_after_turbo();
    let on = j.after_turbo().counter() < j.rate();
    let a = if j.turbo_a_held() { on } else { bit_set(j.state(), 0) };
    let b = if j.turbo_b_held() { on } else { bit_set(with_button(j.state(), 0, a), 1) };
    lemma_turbo_bits(j.state(), a, b);
}

proof fn lemma_turbo_run(j: Joypad, n: nat)
    requires
        j.turbo_a_held(),
        j.counter() == 0,
        0 < j.rate() <= 127,
    ensures
        turbo_updates(j, n).counter() == (n as int) % (2 * j.rate()),
        turbo_updates(j, n).rate() == j.rate(),
        turbo_updates(j, n).turbo_a_held(),
        n >= 1 ==> bit_set(turbo_updates(j, n).state(), 0) == ((n as int) % (2 * j.rate()) < j.rate()),
    decreases n,
{
    if n > 0 {
        let m = (2 * j.rate()) as int;
        lemma_turbo_run(j, (n - 1) as nat);
        let u = turbo_updates(j, (n - 1) as nat);
        assert((n - 1) % m < m) by {
            vstd::arithmetic::div_mod::lemma_mod_pos_bound((n - 1) as int, m);
        }
        u.lemma_after_turbo();
        lemma_turbo_buttons(u);
        vstd::arithmetic::div_mod::lemma_add_mod_noop((n - 1) as int, 1, m);
        vstd::arithmetic::div_mod::lemma_small_mod(1, m as nat);
        assert(u.rate() * 2 == m);
    }
}

/// With turbo A held and the counter at 0, as on a fresh controller, after `n` (at
/// least 1) updates button A is pressed exactly when `n` modulo twice the rate is below
/// the rate: with rate 2, pressed after updates 1, 4 and 5, released after 2 and 3.
pub proof fn lemma_turbo_a_period(j: Joypad, n: nat)
    requires
        j.turbo_a_held(),
        j.counter() == 0,
        0 < j.rate() <= 127,
        n >= 1,
    ensures
        bit_set(turbo_updates(j, n).state(), 0) == ((n as int) % (2 * j.rate()) < j.rate()),
{
    lemma_turbo_run(j, n);
}

} // verus!
