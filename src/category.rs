use vstd::prelude::*;

verus! {

/// A content category of the ad taxonomy.
///
/// Each known code has a variant of its own; a code that is not known is
/// kept, verbatim, in `Unknown`.
#[allow(non_camel_case_types)]
#[derive(Clone, Debug)]
pub enum Category {
    /// Arts & Entertainment
    IAB1,
    /// Automotive
    IAB2,
    /// Business
    IAB3,
    /// Careers
    IAB4,
    /// Education
    IAB5,
    /// Family & Parenting
    IAB6,
    /// Health & Fitness
    IAB7,
    /// Food & Drink
    IAB8,
    /// Hobbies & Interests
    IAB9,
    /// Home & Garden
    IAB10,
    /// Law, Government & Politics
    IAB11,
    /// News
    IAB12,
    /// Personal Finance
    IAB13,
    /// Society
    IAB14,
    /// Science
    IAB15,
    /// Pets
    IAB16,
    /// Sports
    IAB17,
    /// Style & Fashion
    IAB18,
    /// Technology & Computing
    IAB19,
    /// Travel
    IAB20,
    /// Real Estate
    IAB21,
    /// Shopping
    IAB22,
    /// Religion & Spirituality
    IAB23,
    /// Uncategorized
    IAB24,
    /// Non-Standard Content
    IAB25,
    /// Illegal Content
    IAB26,
    /// Arts & Entertainment: Books & Literature
    IAB1_1,
    /// Arts & Entertainment: Celebrity Fan/Gossip
    IAB1_2,
    /// Arts & Entertainment: Fine Art
    IAB1_3,
    /// Arts & Entertainment: Humor
    IAB1_4,
    /// Arts & Entertainment: Movies
    IAB1_5,
    /// Arts & Entertainment: Music
    IAB1_6,
    /// Arts & Entertainment: Television
    IAB1_7,
    /// A code that is not in the table.
    Unknown(String),
}

/// The code of a known category, or the carried text of an unknown one.
pub open spec fn code_of(c: Category) -> Seq<char> {
    match c {
        Category::IAB1 => "IAB1"@,
        Category::IAB2 => "IAB2"@,
        Category::IAB3 => "IAB3"@,
        Category::IAB4 => "IAB4"@,
        Category::IAB5 => "IAB5"@,
        Category::IAB6 => "IAB6"@,
        Category::IAB7 => "IAB7"@,
        Category::IAB8 => "IAB8"@,
        Category::IAB9 => "IAB9"@,
        Category::IAB10 => "IAB10"@,
        Category::IAB11 => "IAB11"@,
        Category::IAB12 => "IAB12"@,
        Category::IAB13 => "IAB13"@,
        Category::IAB14 => "IAB14"@,
        Category::IAB15 => "IAB15"@,
        Category::IAB16 => "IAB16"@,
        Category::IAB17 => "IAB17"@,
        Category::IAB18 => "IAB18"@,
        Category::IAB19 => "IAB19"@,
        Category::IAB20 => "IAB20"@,
        Category::IAB21 => "IAB21"@,
        Category::IAB22 => "IAB22"@,
        Category::IAB23 => "IAB23"@,
        Category::IAB24 => "IAB24"@,
        Category::IAB25 => "IAB25"@,
        Category::IAB26 => "IAB26"@,
        Category::IAB1_1 => "IAB1-1"@,
        Category::IAB1_2 => "IAB1-2"@,
        Category::IAB1_3 => "IAB1-3"@,
        Category::IAB1_4 => "IAB1-4"@,
        Category::IAB1_5 => "IAB1-5"@,
        Category::IAB1_6 => "IAB1-6"@,
        Category::IAB1_7 => "IAB1-7"@,
        Category::Unknown(s) => s@,
    }
}

/// The category table: the known category of a code, if the code has one.
pub open spec fn known_of(s: Seq<char>) -> Option<Category> {
    if s == "IAB1"@ {
        Some(Category::IAB1)
    } else if s == "IAB2"@ {
        Some(Category::IAB2)
    } else if s == "IAB3"@ {
        Some(Category::IAB3)
    } else if s == "IAB4"@ {
        Some(Category::IAB4)
    } else if s == "IAB5"@ {
        Some(Category::IAB5)
    } else if s == "IAB6"@ {
        Some(Category::IAB6)
    } else if s == "IAB7"@ {
        Some(Category::IAB7)
    } else if s == "IAB8"@ {
        Some(Category::IAB8)
    } else if s == "IAB9"@ {
        Some(Category::IAB9)
    } else if s == "IAB10"@ {
        Some(Category::IAB10)
    } else if s == "IAB11"@ {
        Some(Category::IAB11)
    } else if s == "IAB12"@ {
        Some(Category::IAB12)
    } else if s == "IAB13"@ {
        Some(Category::IAB13)
    } else if s == "IAB14"@ {
        Some(Category::IAB14)
    } else if s == "IAB15"@ {
        Some(Category::IAB15)
    } else if s == "IAB16"@ {
        Some(Category::IAB16)
    } else if s == "IAB17"@ {
        Some(Category::IAB17)
    } else if s == "IAB18"@ {
        Some(Category::IAB18)
    } else if s == "IAB19"@ {
        Some(Category::IAB19)
    } else if s == "IAB20"@ {
        Some(Category::IAB20)
    } else if s == "IAB21"@ {
        Some(Category::IAB21)
    } else if s == "IAB22"@ {
        Some(Category::IAB22)
    } else if s == "IAB23"@ {
        Some(Category::IAB23)
    } else if s == "IAB24"@ {
        Some(Category::IAB24)
    } else if s == "IAB25"@ {
        Some(Category::IAB25)
    } else if s == "IAB26"@ {
        Some(Category::IAB26)
    } else if s == "IAB1-1"@ {
        Some(Category::IAB1_1)
    } else if s == "IAB1-2"@ {
        Some(Category::IAB1_2)
    } else if s == "IAB1-3"@ {
        Some(Category::IAB1_3)
    } else if s == "IAB1-4"@ {
        Some(Category::IAB1_4)
    } else if s == "IAB1-5"@ {
        Some(Category::IAB1_5)
    } else if s == "IAB1-6"@ {
        Some(Category::IAB1_6)
    } else if s == "IAB1-7"@ {
        Some(Category::IAB1_7)
    } else {
        None
    }
}

/// Whether `c` is what the code `s` decodes to: its known category, or
/// `Unknown` carrying `s` when the table has no entry for it.
pub open spec fn decodes_to(s: Seq<char>, c: Category) -> bool {
    match known_of(s) {
        Some(k) => c == k,
        None => c is Unknown && code_of(c) == s,
    }
}

/// Whether two categories are the same: the same known variant, or both
/// `Unknown` with the same carried text.
pub open spec fn same_category(a: Category, b: Category) -> bool {
    rank_of(a) == rank_of(b) && code_of(a) == code_of(b)
}

/// Whether a category is what its own code decodes to: a known variant
/// whose code the table maps back to it, or `Unknown` carrying a code that
/// the table does not hold.
pub open spec fn is_canonical(c: Category) -> bool {
    match known_of(code_of(c)) {
        Some(k) => k == c,
        None => c is Unknown,
    }
}

/// The position of a known category in the table, and `None` for `Unknown`.
pub open spec fn rank_of(c: Category) -> Option<nat> {
    match c {
        Category::IAB1 => Some(0nat),
        Category::IAB2 => Some(1nat),
        Category::IAB3 => Some(2nat),
        Category::IAB4 => Some(3nat),
        Category::IAB5 => Some(4nat),
        Category::IAB6 => Some(5nat),
        Category::IAB7 => Some(6nat),
        Category::IAB8 => Some(7nat),
        Category::IAB9 => Some(8nat),
        Category::IAB10 => Some(9nat),
        Category::IAB11 => Some(10nat),
        Category::IAB12 => Some(11nat),
        Category::IAB13 => Some(12nat),
        Category::IAB14 => Some(13nat),
        Category::IAB15 => Some(14nat),
        Category::IAB16 => Some(15nat),
        Category::IAB17 => Some(16nat),
        Category::IAB18 => Some(17nat),
        Category::IAB19 => Some(18nat),
        Category::IAB20 => Some(19nat),
        Category::IAB21 => Some(20nat),
        Category::IAB22 => Some(21nat),
        Category::IAB23 => Some(22nat),
        Category::IAB24 => Some(23nat),
        Category::IAB25 => Some(24nat),
        Category::IAB26 => Some(25nat),
        Category::IAB1_1 => Some(26nat),
        Category::IAB1_2 => Some(27nat),
        Category::IAB1_3 => Some(28nat),
        Category::IAB1_4 => Some(29nat),
        Category::IAB1_5 => Some(30nat),
        Category::IAB1_6 => Some(31nat),
        Category::IAB1_7 => Some(32nat),
        Category::Unknown(_) => None,
    }
}

impl Category {
    /// The position of a known category in the table, and `None` for `Unknown`.
    fn rank(&self) -> (r: Option<u8>)
        ensures
            r matches Some(k) ==> rank_of(*self) == Some(k as nat),
            r is None <==> rank_of(*self) is None,
    {
        match self {
            Category::IAB1 => Some(0),
            Category::IAB2 => Some(1),
            Category::IAB3 => Some(2),
            Category::IAB4 => Some(3),
            Category::IAB5 => Some(4),
            Category::IAB6 => Some(5),
            Category::IAB7 => Some(6),
            Category::IAB8 => Some(7),
            Category::IAB9 => Some(8),
            Category::IAB10 => Some(9),
            Category::IAB11 => Some(10),
            Category::IAB12 => Some(11),
            Category::IAB13 => Some(12),
            Category::IAB14 => Some(13),
            Category::IAB15 => Some(14),
            Category::IAB16 => Some(15),
            Category::IAB17 => Some(16),
            Category::IAB18 => Some(17),
            Category::IAB19 => Some(18),
            Category::IAB20 => Some(19),
            Category::IAB21 => Some(20),
            Category::IAB22 => Some(21),
            Category::IAB23 => Some(22),
            Category::IAB24 => Some(23),
            Category::IAB25 => Some(24),
            Category::IAB26 => Some(25),
            Category::IAB1_1 => Some(26),
            Category::IAB1_2 => Some(27),
            Category::IAB1_3 => Some(28),
            Category::IAB1_4 => Some(29),
            Category::IAB1_5 => Some(30),
            Category::IAB1_6 => Some(31),
            Category::IAB1_7 => Some(32),
            Category::Unknown(_) => None,
        }
    }

    /// Looks a code up in the table; a code that is not there gives
    /// `Unknown` with the code itself.
    pub fn from_code(s: &String) -> (r: Category)
        ensures
            decodes_to(s@, r),
    {
        if *s == String::from_str("IAB1") {
            Category::IAB1
        } else if *s == String::from_str("IAB2") {
            Category::IAB2
        } else if *s == String::from_str("IAB3") {
            Category::IAB3
        } else if *s == String::from_str("IAB4") {
            Category::IAB4
        } else if *s == String::from_str("IAB5") {
            Category::IAB5
        } else if *s == String::from_str("IAB6") {
            Category::IAB6
        } else if *s == String::from_str("IAB7") {
            Category::IAB7
        } else if *s == String::from_str("IAB8") {
            Category::IAB8
        } else if *s == String::from_str("IAB9") {
            Category::IAB9
        } else if *s == String::from_str("IAB10") {
            Category::IAB10
        } else if *s == String::from_str("IAB11") {
            Category::IAB11
        } else if *s == String::from_str("IAB12") {
            Category::IAB12
        } else if *s == String::from_str("IAB13") {
            Category::IAB13
        } else if *s == String::from_str("IAB14") {
            Category::IAB14
        } else if *s == String::from_str("IAB15") {
            Category::IAB15
        } else if *s == String::from_str("IAB16") {
            Category::IAB16
        } else if *s == String::from_str("IAB17") {
            Category::IAB17
        } else if *s == String::from_str("IAB18") {
            Category::IAB18
        } else if *s == String::from_str("IAB19") {
            Category::IAB19
        } else if *s == String::from_str("IAB20") {
            Category::IAB20
        } else if *s == String::from_str("IAB21") {
            Category::IAB21
        } else if *s == String::from_str("IAB22") {
            Category::IAB22
        } else if *s == String::from_str("IAB23") {
            Category::IAB23
        } else if *s == String::from_str("IAB24") {
            Category::IAB24
        } else if *s == String::from_str("IAB25") {
            Category::IAB25
        } else if *s == String::from_str("IAB26") {
            Category::IAB26
        } else if *s == String::from_str("IAB1-1") {
            Category::IAB1_1
        } else if *s == String::from_str("IAB1-2") {
            Category::IAB1_2
        } else if *s == String::from_str("IAB1-3") {
            Category::IAB1_3
        } else if *s == String::from_str("IAB1-4") {
            Category::IAB1_4
        } else if *s == String::from_str("IAB1-5") {
            Category::IAB1_5
        } else if *s == String::from_str("IAB1-6") {
            Category::IAB1_6
        } else if *s == String::from_str("IAB1-7") {
            Category::IAB1_7
        } else {
            Category::Unknown(s.clone())
        }
    }

    /// The code of this category, as it is written on the wire.
    pub fn to_code(&self) -> (r: String)
        ensures
            r@ == code_of(*self),
    {
        match self {
            Category::IAB1 => String::from_str("IAB1"),
            Category::IAB2 => String::from_str("IAB2"),
            Category::IAB3 => String::from_str("IAB3"),
            Category::IAB4 => String::from_str("IAB4"),
            Category::IAB5 => String::from_str("IAB5"),
            Category::IAB6 => String::from_str("IAB6"),
            Category::IAB7 => String::from_str("IAB7"),
            Category::IAB8 => String::from_str("IAB8"),
            Category::IAB9 => String::from_str("IAB9"),
            Category::IAB10 => String::from_str("IAB10"),
            Category::IAB11 => String::from_str("IAB11"),
            Category::IAB12 => String::from_str("IAB12"),
            Category::IAB13 => String::from_str("IAB13"),
            Category::IAB14 => String::from_str("IAB14"),
            Category::IAB15 => String::from_str("IAB15"),
            Category::IAB16 => String::from_str("IAB16"),
            Category::IAB17 => String::from_str("IAB17"),
            Category::IAB18 => String::from_str("IAB18"),
            Category::IAB19 => String::from_str("IAB19"),
            Category::IAB20 => String::from_str("IAB20"),
            Category::IAB21 => String::from_str("IAB21"),
            Category::IAB22 => String::from_str("IAB22"),
            Category::IAB23 => String::from_str("IAB23"),
            Category::IAB24 => String::from_str("IAB24"),
            Category::IAB25 => String::from_str("IAB25"),
            Category::IAB26 => String::from_str("IAB26"),
            Category::IAB1_1 => String::from_str("IAB1-1"),
            Category::IAB1_2 => String::from_str("IAB1-2"),
            Category::IAB1_3 => String::from_str("IAB1-3"),
            Category::IAB1_4 => String::from_str("IAB1-4"),
            Category::IAB1_5 => String::from_str("IAB1-5"),
            Category::IAB1_6 => String::from_str("IAB1-6"),
            Category::IAB1_7 => String::from_str("IAB1-7"),
            Category::Unknown(s) => s.clone(),
        }
    }
}

impl PartialEq for Category {
    fn eq(&self, o: &Category) -> (r: bool)
        ensures
            r == same_category(*self, *o),
    {
        proof { lemma_rank_identifies(*self, *o); }
        match (self, o) {
            (Category::Unknown(a), Category::Unknown(b)) => *a == *b,
            _ => self.rank() == o.rank(),
        }
    }
}

impl vstd::std_specs::cmp::PartialEqSpecImpl for Category {
    open spec fn obeys_eq_spec() -> bool {
        true
    }

    open spec fn eq_spec(&self, o: &Category) -> bool {
        same_category(*self, *o)
    }
}

impl Eq for Category {
}

/// Two categories with the same position in the table are the same.
proof fn lemma_rank_identifies(a: Category, b: Category)
    ensures
        rank_of(a) is Some && rank_of(a) == rank_of(b) ==> a == b && code_of(a) == code_of(b),
{
}

/// A code that the table maps to a category is that category's code.
proof fn lemma_known_code(s: Seq<char>)
    ensures
        known_of(s) matches Some(k) ==> code_of(k) == s && !(k is Unknown),
{
}

/// What a code decodes to is canonical, and carries that code.
pub proof fn lemma_decoded_canonical(s: Seq<char>, c: Category)
    requires
        decodes_to(s, c),
    ensures
        is_canonical(c),
        code_of(c) == s,
{
    lemma_known_code(s);
}

/// The code of a canonical category decodes back to that category.
pub proof fn lemma_code_round_trip(c: Category, d: Category)
    requires
        is_canonical(c),
        decodes_to(code_of(c), d),
    ensures
        same_category(c, d),
        is_canonical(d),
{
    lemma_decoded_canonical(code_of(c), d);
}

} // verus!
