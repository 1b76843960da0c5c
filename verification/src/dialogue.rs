//! Conversations with the people of the astral realm: a dialogue is a list
//! of lines read one at a time.
use vstd::prelude::*;

use crate::text::texts;

verus! {

/// A conversation, shown one line at a time.
#[derive(Clone, Debug)]
pub struct Dialogue {
    lines: Vec<String>,
    pub current_line: usize,
}

/// The line index after advancing from `current` through `len` lines: one
/// further, unless that would pass the last line.
pub open spec fn advanced(current: int, len: int) -> int {
    if current + 1 < len {
        current + 1
    } else {
        current
    }
}

/// Whether a dialogue at line `current` of `len` lines shows its last line
/// (an empty dialogue is always done).
pub open spec fn done_at(current: int, len: int) -> bool {
    current >= if len > 0 { len - 1 } else { 0 }
}

impl Dialogue {
    /// The text of the lines.
    pub closed spec fn lines_view(self) -> Seq<Seq<char>> {
        texts(self.lines@)
    }

    /// The index of the line shown: the public field `current_line`.
    pub closed spec fn line(self) -> int {
        self.current_line as int
    }

    /// The line index is a `usize`.
    pub proof fn lemma_line_in_range(self)
        ensures
            0 <= self.line() <= usize::MAX,
    {
    }

    pub fn new(lines: Vec<String>) -> (d: Self)
        ensures
            d.lines_view() == texts(lines@),
            d.line() == 0,
    {
        Dialogue { lines, current_line: 0 }
    }

    /// Moves to the next line, and stays on the last one.
    pub fn advance(&mut self)
        ensures
            final(self).lines_view() == old(self).lines_view(),
            final(self).line() == advanced(old(self).line(), old(self).lines_view().len() as int),
    {
        let len = self.lines.len();
        if len > 0 && self.current_line < len - 1 {
            self.current_line = self.current_line + 1;
        }
    }

    /// The line shown, or the empty string past the end.
    pub fn current(&self) -> (line: &str)
        ensures
            line@ == if self.line() < self.lines_view().len() {
                self.lines_view()[self.line()]
            } else {
                Seq::<char>::empty()
            },
    {
        if self.current_line < self.lines.len() {
            self.lines[self.current_line].as_str()
        } else {
            proof {
                reveal_strlit("");
            }
            ""
        }
    }

    pub fn is_done(&self) -> (done: bool)
        ensures
            done == done_at(self.line(), self.lines_view().len() as int),
    {
        let len = self.lines.len();
        let last = if len > 0 { len - 1 } else { 0 };
        self.current_line >= last
    }
}
/// The line index after advancing `k` times from `current`.
pub open spec fn advanced_times(current: int, len: int, k: nat) -> int
    decreases k,
{
    if k == 0 {
        current
    } else {
        advanced(advanced_times(current, len, (k - 1) as nat), len)
    }
}

/// The index of the last line of a dialogue of `len` lines (0 when empty).
pub open spec fn last_line(len: int) -> int {
    if len > 0 {
        len - 1
    } else {
        0
    }
}

/// Advancing a dialogue of `len` lines `k` times from its first line shows
/// line `min(k, len - 1)`: one line per step until the last, which it keeps;
/// the dialogue is done from then on.
pub proof fn lemma_dialogue_reaches_last_line(len: int, k: nat)
    requires
        len >= 0,
    ensures
        advanced_times(0, len, k) == imin_nat(k, last_line(len)),
        k >= last_line(len) ==> done_at(advanced_times(0, len, k), len),
        k < last_line(len) ==> !done_at(advanced_times(0, len, k), len),
    decreases k,
{
    if k > 0 {
        lemma_dialogue_reaches_last_line(len, (k - 1) as nat);
    }
}

/// A dialogue is done exactly when advancing it no longer moves it; and
/// advancing never moves past the last line.
pub proof fn lemma_advance_stays_in_range(current: int, len: int)
    requires
        0 <= current,
    ensures
        done_at(current, len) <==> advanced(current, len) == current,
        done_at(current, len) <==> current + 1 >= len,
        current < len ==> advanced(current, len) < len,
{
}

/// The same for a dialogue value: it is done exactly when `advance` leaves
/// its line where it is.
pub proof fn lemma_done_iff_advance_stays(d: Dialogue)
    ensures
        done_at(d.line(), d.lines_view().len() as int) <==> advanced(d.line(), d.lines_view().len() as int)
            == d.line(),
        done_at(d.line(), d.lines_view().len() as int) <==> d.line() + 1 >= d.lines_view().len(),
{
    d.lemma_line_in_range();
    lemma_advance_stays_in_range(d.line(), d.lines_view().len() as int);
}

/// Pressing to continue a freshly opened dialogue of `len` lines: the first
/// `len - 1` presses each move one line on (the dialogue is not done before
/// them), and the next press finds it done and closes it.
pub proof fn lemma_presses_close_dialogue(len: int, k: nat)
    requires
        len >= 0,
    ensures
        k < last_line(len) ==> !done_at(advanced_times(0, len, k), len) && advanced_times(0, len, k + 1) == k + 1,
        done_at(advanced_times(0, len, last_line(len) as nat), len),
{
    lemma_dialogue_reaches_last_line(len, k);
    lemma_dialogue_reaches_last_line(len, (k + 1) as nat);
    lemma_dialogue_reaches_last_line(len, last_line(len) as nat);
}

pub open spec fn imin_nat(k: nat, b: int) -> int {
    if k <= b {
        k as int
    } else {
        b
    }
}

/// The lines of the generic dialogue `id`, spoken by the townsfolk.
pub open spec fn generic_lines(id: usize) -> Seq<Seq<char>> {
    if id == 0 {
        seq![
            "Greetings, traveler of the astral realm."@,
            "Beware the shadows beyond the veil."@,
            "Take this -- it may save your life."@,
            "The path ahead is fraught with peril."@,
            "Your journey will not be easy, but you are worthy."@,
        ]
    } else if id == 1 {
        seq![
            "The old ones speak of a rift in the stars..."@,
            "Only a true champion can seal it shut."@,
            "But first, prove yourself in battle."@,
            "The astral realm tests all who enter."@,
            "Strength alone will not be enough to survive."@,
        ]
    } else if id == 2 {
        seq![
            "Many adventurers pass through this land."@,
            "Few return from the deeper realms."@,
            "You carry a rare courage -- I can sense it."@,
            "May the astral winds guide your steps."@,
            "Watch for the shadows that move against the light."@,
        ]
    } else if id == 3 {
        seq![
            "My forge burns with astral flame."@,
            "Bring me materials, and I shall craft for you."@,
            "Steel tempered in the void is the strongest."@,
            "Your journey will require more than courage."@,
            "Some foes can only be defeated with the right tool."@,
        ]
    } else if id == 4 {
        seq![
            "I've wandered these realms for centuries."@,
            "The stars hold secrets, but so do the shadows."@,
            "Keep your wits sharp and your blade sharper."@,
            "Remember: every enemy is a lesson learned."@,
            "The astral realm rewards those who adapt."@,
        ]
    } else {
        seq![
            "Hello, wanderer."@,
            "May the stars guide your path."@,
            "The astral realm is both beautiful and deadly."@,
            "Stay vigilant, for danger lurks in every corner."@,
        ]
    }
}

/// The lines that a dialogue partner says to a champion of the class named `class`.
pub open spec fn class_lines(class: Seq<char>, id: usize) -> Seq<Seq<char>> {
    if class == "Warrior"@ {
        if id == 0 {
            seq![
                "A warrior's strength is forged in battle, not in peace."@,
                "Your shield will be your salvation when steel fails."@,
                "Stand firm, warrior. The void cannot break what is unyielding."@,
            ]
        } else if id == 1 {
            seq![
                "I've seen warriors fall to their own hubris."@,
                "Remember: even the strongest blade can be shattered."@,
                "Honor is your shield, but vigilance is your sword."@,
            ]
        } else {
            seq![
                "A warrior's path is one of steel and sacrifice."@,
                "May your strikes be true and your defense impenetrable."@,
            ]
        }
    } else if class == "Knight"@ {
        if id == 0 {
            seq![
                "A knight's duty is to protect, even from the shadows."@,
                "Your visor may shield your eyes, but your heart shields all."@,
                "Chivalry is not just code -- it is survival."@,
            ]
        } else if id == 1 {
            seq![
                "I have served under many banners, but none as noble as yours."@,
                "The astral realm respects those who uphold their word."@,
                "Lower your visor when the storm comes -- it will save your life."@,
            ]
        } else {
            seq![
                "A knight stands between the innocent and the darkness."@,
                "Your armor is more than metal -- it is a promise."@,
            ]
        }
    } else if class == "Archer"@ {
        if id == 0 {
            seq![
                "An archer's strength is in their patience, not their rage."@,
                "Every arrow finds its mark when the heart is still."@,
                "The shadows fear those who can strike from the light."@,
            ]
        } else if id == 1 {
            seq![
                "I've watched arrows fly true through the darkest nights."@,
                "Speed is your ally, but precision is your weapon."@,
                "Never chase your prey -- let them come to you."@,
            ]
        } else {
            seq![
                "An archer sees what others miss."@,
                "Your bow is an extension of your will."@,
            ]
        }
    } else if class == "Mage"@ {
        if id == 0 {
            seq![
                "Magic is not power -- it is understanding."@,
                "The astral realm bends to those who read its language."@,
                "Beware the cost of every spell you cast."@,
            ]
        } else if id == 1 {
            seq![
                "I have seen mages burn brighter than stars, then fade to ash."@,
                "Knowledge is your shield, but wisdom is your life."@,
                "The void whispers to those who listen too long."@,
            ]
        } else {
            seq![
                "Magic flows through all things -- you merely channel it."@,
                "Respect the arcane, and it will serve you."@,
            ]
        }
    } else {
        seq![
            "Your path is your own to forge."@,
            "The astral realm knows no master."@,
        ]
    }
}

/// Each of the ids 0 to 4 has a dialogue of its own (five lines, each
/// opening differently from the others and from the shared one), and every
/// id above 4 gets the shared four-line dialogue.
pub proof fn lemma_generic_dialogue_ids(id: usize, other: usize)
    ensures
        id > 4 && other > 4 ==> generic_lines(id) == generic_lines(other),
        id > 4 ==> generic_lines(id).len() == 4 && generic_lines(id)[0] == "Hello, wanderer."@,
        id <= 4 ==> generic_lines(id).len() == 5,
        id <= 4 && id != other ==> generic_lines(id)[0] != generic_lines(other)[0],
        id == 4 ==> generic_lines(id)[0] == "I've wandered these realms for centuries."@,
{
    reveal_strlit("Greetings, traveler of the astral realm.");
    reveal_strlit("The old ones speak of a rift in the stars...");
    reveal_strlit("Many adventurers pass through this land.");
    reveal_strlit("My forge burns with astral flame.");
    reveal_strlit("I've wandered these realms for centuries.");
    reveal_strlit("Hello, wanderer.");
    let firsts = seq![
        "Greetings, traveler of the astral realm."@,
        "The old ones speak of a rift in the stars..."@,
        "Many adventurers pass through this land."@,
        "My forge burns with astral flame."@,
        "I've wandered these realms for centuries."@,
        "Hello, wanderer."@,
    ];
    assert(firsts[0][0] == 'G');
    assert(firsts[1][0] == 'T');
    assert(firsts[2][0] == 'M' && firsts[2][1] == 'a');
    assert(firsts[3][0] == 'M' && firsts[3][1] == 'y');
    assert(firsts[4][0] == 'I');
    assert(firsts[5][0] == 'H');
}

/// Every class name other than the four gets the same two-line dialogue,
/// whatever the id; for each class, every id above 1 gets the same dialogue.
pub proof fn lemma_class_dialogue_ids(class: Seq<char>, other: Seq<char>, id: usize, id2: usize)
    ensures
        ({
            let known = |c: Seq<char>| c == "Warrior"@ || c == "Knight"@ || c == "Archer"@ || c == "Mage"@;
            !known(class) && !known(other) ==> class_lines(class, id) == class_lines(other, id2)
        }),
        id > 1 && id2 > 1 ==> class_lines(class, id) == class_lines(class, id2),
        class_lines(class, id).len() >= 2,
{
}

/// The generic dialogue `id`; ids past 4 share one dialogue.
pub fn generic_dialogue(id: usize) -> (d: Dialogue)
    ensures
        d.lines_view() == generic_lines(id),
        d.line() == 0,
{
    if id == 0 {
        let lines = vec![
            String::from_str("Greetings, traveler of the astral realm."),
            String::from_str("Beware the shadows beyond the veil."),
            String::from_str("Take this -- it may save your life."),
            String::from_str("The path ahead is fraught with peril."),
            String::from_str("Your journey will not be easy, but you are worthy."),
        ];
        proof {
            assert(texts(lines@) =~= seq![
                "Greetings, traveler of the astral realm."@,
                "Beware the shadows beyond the veil."@,
                "Take this -- it may save your life."@,
                "The path ahead is fraught with peril."@,
                "Your journey will not be easy, but you are worthy."@,
            ]);
        }
        Dialogue::new(lines)
    } else if id == 1 {
        let lines = vec![
            String::from_str("The old ones speak of a rift in the stars..."),
            String::from_str("Only a true champion can seal it shut."),
            String::from_str("But first, prove yourself in battle."),
            String::from_str("The astral realm tests all who enter."),
            String::from_str("Strength alone will not be enough to survive."),
        ];
        proof {
            assert(texts(lines@) =~= seq![
                "The old ones speak of a rift in the stars..."@,
                "Only a true champion can seal it shut."@,
                "But first, prove yourself in battle."@,
                "The astral realm tests all who enter."@,
                "Strength alone will not be enough to survive."@,
            ]);
        }
        Dialogue::new(lines)
    } else if id == 2 {
        let lines = vec![
            String::from_str("Many adventurers pass through this land."),
            String::from_str("Few return from the deeper realms."),
            String::from_str("You carry a rare courage -- I can sense it."),
            String::from_str("May the astral winds guide your steps."),
            String::from_str("Watch for the shadows that move against the light."),
        ];
        proof {
            assert(texts(lines@) =~= seq![
                "Many adventurers pass through this land."@,
                "Few return from the deeper realms."@,
                "You carry a rare courage -- I can sense it."@,
                "May the astral winds guide your steps."@,
                "Watch for the shadows that move against the light."@,
            ]);
        }
        Dialogue::new(lines)
    } else if id == 3 {
        let lines = vec![
            String::from_str("My forge burns with astral flame."),
            String::from_str("Bring me materials, and I shall craft for you."),
            String::from_str("Steel tempered in the void is the strongest."),
            String::from_str("Your journey will require more than courage."),
            String::from_str("Some foes can only be defeated with the right tool."),
        ];
        proof {
            assert(texts(lines@) =~= seq![
                "My forge burns with astral flame."@,
                "Bring me materials, and I shall craft for you."@,
                "Steel tempered in the void is the strongest."@,
                "Your journey will require more than courage."@,
                "Some foes can only be defeated with the right tool."@,
            ]);
        }
        Dialogue::new(lines)
    } else if id == 4 {
        let lines = vec![
            String::from_str("I've wandered these realms for centuries."),
            String::from_str("The stars hold secrets, but so do the shadows."),
            String::from_str("Keep your wits sharp and your blade sharper."),
            String::from_str("Remember: every enemy is a lesson learned."),
            String::from_str("The astral realm rewards those who adapt."),
        ];
        proof {
            assert(texts(lines@) =~= seq![
                "I've wandered these realms for centuries."@,
                "The stars hold secrets, but so do the shadows."@,
                "Keep your wits sharp and your blade sharper."@,
                "Remember: every enemy is a lesson learned."@,
                "The astral realm rewards those who adapt."@,
            ]);
        }
        Dialogue::new(lines)
    } else {
        let lines = vec![
            String::from_str("Hello, wanderer."),
            String::from_str("May the stars guide your path."),
            String::from_str("The astral realm is both beautiful and deadly."),
            String::from_str("Stay vigilant, for danger lurks in every corner."),
        ];
        proof {
            assert(texts(lines@) =~= seq![
                "Hello, wanderer."@,
                "May the stars guide your path."@,
                "The astral realm is both beautiful and deadly."@,
                "Stay vigilant, for danger lurks in every corner."@,
            ]);
        }
        Dialogue::new(lines)
    }
}

/// A dialogue for a champion of the class named `class` (as
/// `CharacterClass::class_name` spells it); `id` picks one of its dialogues.
pub fn character_specific_dialogue(class: &str, id: usize) -> (d: Dialogue)
    ensures
        d.lines_view() == class_lines(class@, id),
        d.line() == 0,
{
    let class = String::from_str(class);
    if class == String::from_str("Warrior") {
        if id == 0 {
            let lines = vec![
                String::from_str("A warrior's strength is forged in battle, not in peace."),
                String::from_str("Your shield will be your salvation when steel fails."),
                String::from_str("Stand firm, warrior. The void cannot break what is unyielding."),
            ];
            proof {
                assert(texts(lines@) =~= seq![
                    "A warrior's strength is forged in battle, not in peace."@,
                    "Your shield will be your salvation when steel fails."@,
                    "Stand firm, warrior. The void cannot break what is unyielding."@,
                ]);
            }
            Dialogue::new(lines)
        } else if id == 1 {
            let lines = vec![
                String::from_str("I've seen warriors fall to their own hubris."),
                String::from_str("Remember: even the strongest blade can be shattered."),
                String::from_str("Honor is your shield, but vigilance is your sword."),
            ];
            proof {
                assert(texts(lines@) =~= seq![
                    "I've seen warriors fall to their own hubris."@,
                    "Remember: even the strongest blade can be shattered."@,
                    "Honor is your shield, but vigilance is your sword."@,
                ]);
            }
            Dialogue::new(lines)
        } else {
            let lines = vec![
                String::from_str("A warrior's path is one of steel and sacrifice."),
                String::from_str("May your strikes be true and your defense impenetrable."),
            ];
            proof {
                assert(texts(lines@) =~= seq![
                    "A warrior's path is one of steel and sacrifice."@,
                    "May your strikes be true and your defense impenetrable."@,
                ]);
            }
            Dialogue::new(lines)
        }
    } else if class == String::from_str("Knight") {
        if id == 0 {
            let lines = vec![
                String::from_str("A knight's duty is to protect, even from the shadows."),
                String::from_str("Your visor may shield your eyes, but your heart shields all."),
                String::from_str("Chivalry is not just code -- it is survival."),
            ];
            proof {
                assert(texts(lines@) =~= seq![
                    "A knight's duty is to protect, even from the shadows."@,
                    "Your visor may shield your eyes, but your heart shields all."@,
                    "Chivalry is not just code -- it is survival."@,
                ]);
            }
            Dialogue::new(lines)
        } else if id == 1 {
            let lines = vec![
                String::from_str("I have served under many banners, but none as noble as yours."),
                String::from_str("The astral realm respects those who uphold their word."),
                String::from_str("Lower your visor when the storm comes -- it will save your life."),
            ];
            proof {
                assert(texts(lines@) =~= seq![
                    "I have served under many banners, but none as noble as yours."@,
                    "The astral realm respects those who uphold their word."@,
                    "Lower your visor when the storm comes -- it will save your life."@,
                ]);
            }
            Dialogue::new(lines)
        } else {
            let lines = vec![
                String::from_str("A knight stands between the innocent and the darkness."),
                String::from_str("Your armor is more than metal -- it is a promise."),
            ];
            proof {
                assert(texts(lines@) =~= seq![
                    "A knight stands between the innocent and the darkness."@,
                    "Your armor is more than metal -- it is a promise."@,
                ]);
            }
            Dialogue::new(lines)
        }
    } else if class == String::from_str("Archer") {
        if id == 0 {
            let lines = vec![
                String::from_str("An archer's strength is in their patience, not their rage."),
                String::from_str("Every arrow finds its mark when the heart is still."),
                String::from_str("The shadows fear those who can strike from the light."),
            ];
            proof {
                assert(texts(lines@) =~= seq![
                    "An archer's strength is in their patience, not their rage."@,
                    "Every arrow finds its mark when the heart is still."@,
                    "The shadows fear those who can strike from the light."@,
                ]);
            }
            Dialogue::new(lines)
        } else if id == 1 {
            let lines = vec![
                String::from_str("I've watched arrows fly true through the darkest nights."),
                String::from_str("Speed is your ally, but precision is your weapon."),
                String::from_str("Never chase your prey -- let them come to you."),
            ];
            proof {
                assert(texts(lines@) =~= seq![
                    "I've watched arrows fly true through the darkest nights."@,
                    "Speed is your ally, but precision is your weapon."@,
                    "Never chase your prey -- let them come to you."@,
                ]);
            }
            Dialogue::new(lines)
        } else {
            let lines = vec![
                String::from_str("An archer sees what others miss."),
                String::from_str("Your bow is an extension of your will."),
            ];
            proof {
                assert(texts(lines@) =~= seq![
                    "An archer sees what others miss."@,
                    "Your bow is an extension of your will."@,
                ]);
            }
            Dialogue::new(lines)
        }
    } else if class == String::from_str("Mage") {
        if id == 0 {
            let lines = vec![
                String::from_str("Magic is not power -- it is understanding."),
                String::from_str("The astral realm bends to those who read its language."),
                String::from_str("Beware the cost of every spell you cast."),
            ];
            proof {
                assert(texts(lines@) =~= seq![
                    "Magic is not power -- it is understanding."@,
                    "The astral realm bends to those who read its language."@,
                    "Beware the cost of every spell you cast."@,
                ]);
            }
            Dialogue::new(lines)
        } else if id == 1 {
            let lines = vec![
                String::from_str("I have seen mages burn brighter than stars, then fade to ash."),
                String::from_str("Knowledge is your shield, but wisdom is your life."),
                String::from_str("The void whispers to those who listen too long."),
            ];
            proof {
                assert(texts(lines@) =~= seq![
                    "I have seen mages burn brighter than stars, then fade to ash."@,
                    "Knowledge is your shield, but wisdom is your life."@,
                    "The void whispers to those who listen too long."@,
                ]);
            }
            Dialogue::new(lines)
        } else {
            let lines = vec![
                String::from_str("Magic flows through all things -- you merely channel it."),
                String::from_str("Respect the arcane, and it will serve you."),
            ];
            proof {
                assert(texts(lines@) =~= seq![
                    "Magic flows through all things -- you merely channel it."@,
                    "Respect the arcane, and it will serve you."@,
                ]);
            }
            Dialogue::new(lines)
        }
    } else {
        let lines = vec![
            String::from_str("Your path is your own to forge."),
            String::from_str("The astral realm knows no master."),
        ];
        proof {
            assert(texts(lines@) =~= seq![
                "Your path is your own to forge."@,
                "The astral realm knows no master."@,
            ]);
        }
        Dialogue::new(lines)
    }
}

} // verus!
