use vstd::prelude::*;

verus! {

/// A cardholder of the student directory. Dates are milliseconds since the
/// Unix epoch, UTC.
#[derive(Debug, Clone)]
pub struct Student {
    pub id: String,
    pub first_name: String,
    pub last_name: String,
    pub email: Option<String>,
    pub phone: Option<String>,
    pub academic_level: String,
    pub rfid_card: Option<String>,
    pub parent_name: String,
    pub parent_phone: String,
    pub address: Option<String>,
    pub birth_date: Option<String>,
    pub enrollment_date: i64,
    pub is_active: bool,
    pub notes: Option<String>,
    pub created_at: i64,
    pub updated_at: i64,
}

/// Whether the student's badge is the card `card` (exact text equality).
pub open spec fn holds_card(student: Student, card: Seq<char>) -> bool {
    student.rfid_card matches Some(c) && c@ == card
}

/// Whether `i` is the first position in `students` bound to `card`.
pub open spec fn is_first_holder(students: Seq<Student>, card: Seq<char>, i: int) -> bool {
    &&& 0 <= i < students.len()
    &&& holds_card(students[i], card)
    &&& forall|j: int| 0 <= j < i ==> !holds_card(#[trigger] students[j], card)
}

/// Tests whether `student` carries the badge `card_id`.
pub fn carries_card(student: &Student, card_id: &String) -> (r: bool)
    ensures
        r == holds_card(*student, card_id@),
{
    match &student.rfid_card {
        Some(card) => *card == *card_id,
        None => false,
    }
}

/// The record a scanned card resolves to: the first one bound to it.
pub open spec fn resolution(students: Seq<Student>, card: Seq<char>) -> Option<Student> {
    if exists|i: int| is_first_holder(students, card, i) {
        Some(students[choose|i: int| is_first_holder(students, card, i)])
    } else {
        None
    }
}

/// At most one position is the first holder of a card.
pub proof fn lemma_first_holder_unique(students: Seq<Student>, card: Seq<char>, i: int, k: int)
    requires
        is_first_holder(students, card, i),
        is_first_holder(students, card, k),
    ensures
        i == k,
{
    if i < k {
        assert(!holds_card(students[i], card));
    } else if k < i {
        assert(!holds_card(students[k], card));
    }
}

/// Finds the record bound to a scanned card: the first one in the listing,
/// or `None` when no record carries that card.
pub fn resolve_card(card_id: &String, students: Vec<Student>) -> (r: Option<Student>)
    ensures
        r == resolution(students@, card_id@),
        r is None <==> forall|j: int| 0 <= j < students@.len() ==> !holds_card(#[trigger] students@[j], card_id@),
{
    let mut records = students;
    let mut i: usize = 0;
    while i < records.len()
        invariant
            records@ == students@,
            i <= students@.len(),
            forall|j: int| 0 <= j < i ==> !holds_card(#[trigger] students@[j], card_id@),
        decreases students@.len() - i,
    {
        if carries_card(&records[i], card_id) {
            assert(holds_card(students@[i as int], card_id@));
            assert(is_first_holder(students@, card_id@, i as int));
            proof {
                let k = choose|k: int| is_first_holder(students@, card_id@, k);
                lemma_first_holder_unique(students@, card_id@, i as int, k);
            }
            let found = records.swap_remove(i);
            return Some(found);
        }
        i = i + 1;
    }
    proof {
        if exists|k: int| is_first_holder(students@, card_id@, k) {
            let k = choose|k: int| is_first_holder(students@, card_id@, k);
            assert(!holds_card(students@[k], card_id@));
        }
    }
    None
}

} // verus!
