//! The player's own settings, and the simulation's progress counters.
use vstd::prelude::*;
use vstd::utf8::encode_utf8;

verus! {

/// The shortest name a player may choose, in UTF-8 bytes.
pub const MIN_NAME_LEN: usize = 4;

/// The longest name a player may choose, in UTF-8 bytes.
pub const MAX_NAME_LEN: usize = 21;

/// A name is acceptable when its UTF-8 encoding is 4 to 21 bytes long and
/// it holds no space.
pub open spec fn is_valid_name(name: Seq<char>) -> bool {
    &&& MIN_NAME_LEN <= encode_utf8(name).len() <= MAX_NAME_LEN
    &&& !name.contains(' ')
}

pub struct Settings {
    pub show_watermark: bool,
    pub name: String,
}

impl Settings {
    /// The watermark is shown and no name is chosen yet.
    pub fn new() -> (s: Settings)
        ensures
            s.show_watermark,
            s.name@ == Seq::<char>::empty(),
    {
        Settings { show_watermark: true, name: String::new() }
    }

    /// Takes `name` as the player's name if it is acceptable, and says
    /// whether it was.
    pub fn set_name(&mut self, name: String) -> (ok: bool)
        ensures
            ok == is_valid_name(name@),
            ok ==> final(self).name@ == name@,
            !ok ==> final(self).name@ == old(self).name@,
            final(self).show_watermark == old(self).show_watermark,
    {
        let len = name.as_str().as_bytes().len();
        if len < MIN_NAME_LEN || len > MAX_NAME_LEN {
            return false;
        }
        let mut has_space = false;
        for c in it: name.as_str().chars()
            invariant
                it.seq() == name@,
                MIN_NAME_LEN <= encode_utf8(name@).len() <= MAX_NAME_LEN,
                has_space <==> it.seq().take(it.index@ as int).contains(' '),
        {
            let ghost k = it.index@;
            proof {
                assert(it.seq().take(k + 1) =~= it.seq().take(k).push(c));
            }
            if c == ' ' {
                has_space = true;
            }
            proof {
                if !has_space {
                    assert forall|j: int| 0 <= j < k + 1 implies #[trigger] it.seq().take(k + 1)[j] != ' ' by {
                        if j < k {
                            assert(it.seq().take(k + 1)[j] == it.seq().take(k)[j]);
                        }
                    }
                } else if c == ' ' {
                    assert(it.seq().take(k + 1)[k] == ' ');
                } else {
                    let j = choose|j: int| 0 <= j < k && it.seq().take(k)[j] == ' ';
                    assert(it.seq().take(k + 1)[j] == ' ');
                }
            }
        }
        proof {
            assert(name@.take(name@.len() as int) =~= name@);
        }
        if has_space {
            false
        } else {
            self.name = name;
            true
        }
    }
}

/// Whether the simulation runs, and the generation and frame it reached.
pub struct SimulationSettings {
    pub run: bool,
    pub curr_gen: u64,
    pub curr_frames: u64,
}

impl SimulationSettings {
    /// Running, at generation and frame 0.
    pub fn new() -> (s: SimulationSettings)
        ensures
            s.run,
            s.curr_gen == 0,
            s.curr_frames == 0,
    {
        SimulationSettings { run: true, curr_gen: 0, curr_frames: 0 }
    }

    /// Records the generation and frame the simulation reached.
    pub fn update(&mut self, gen: u64, frame: u64)
        ensures
            final(self).curr_gen == gen,
            final(self).curr_frames == frame,
            final(self).run == old(self).run,
    {
        self.curr_gen = gen;
        self.curr_frames = frame;
    }
}

} // verus!
