//! Courses that describe themselves in one line.

use vstd::prelude::*;
use crate::numfmt::{decimal, push_u64};
use crate::uptime::notifier::{lemma_occurs_between, occurs_in};

verus! {

/// Something that can give a one-line overview of itself.
pub trait Course {
    fn get_overview(&self) -> (overview: String);
}

/// A hands-on workshop of `duration` hours.
pub struct Workshop {
    pub title: String,
    pub instructor: String,
    pub duration: u32,
}

/// A talk given at a place.
pub struct Seminar {
    pub title: String,
    pub speaker: String,
    pub location: String,
}

/// `Workshop <title> by <instructor> for <duration> hours `.
pub open spec fn workshop_overview(w: &Workshop) -> Seq<char> {
    "Workshop "@ + w.title@ + " by "@ + w.instructor@ + " for "@ + decimal(w.duration as nat)
        + " hours "@
}

/// `Seminar <title> by <speaker> at <location> `.
pub open spec fn seminar_overview(s: &Seminar) -> Seq<char> {
    "Seminar "@ + s.title@ + " by "@ + s.speaker@ + " at "@ + s.location@ + " "@
}

impl Course for Workshop {
    fn get_overview(&self) -> (overview: String)
        ensures
            overview@ == workshop_overview(self),
    {
        let mut s = String::from_str("Workshop ");
        s.append(self.title.as_str());
        s.append(" by ");
        s.append(self.instructor.as_str());
        s.append(" for ");
        push_u64(&mut s, self.duration as u64);
        s.append(" hours ");
        s
    }
}

impl Course for Seminar {
    fn get_overview(&self) -> (overview: String)
        ensures
            overview@ == seminar_overview(self),
    {
        let mut s = String::from_str("Seminar ");
        s.append(self.title.as_str());
        s.append(" by ");
        s.append(self.speaker.as_str());
        s.append(" at ");
        s.append(self.location.as_str());
        s.append(" ");
        s
    }
}

/// A workshop's overview begins with `Workshop ` and names its title, its
/// instructor and its duration in hours; a seminar's begins with
/// `Seminar ` and names its title, speaker and location.
pub proof fn law_overviews_name_their_course(w: &Workshop, s: &Seminar)
    ensures
        workshop_overview(w).take(9) == "Workshop "@,
        occurs_in(w.title@, workshop_overview(w)),
        occurs_in(w.instructor@, workshop_overview(w)),
        occurs_in(decimal(w.duration as nat), workshop_overview(w)),
        seminar_overview(s).take(8) == "Seminar "@,
        occurs_in(s.title@, seminar_overview(s)),
        occurs_in(s.speaker@, seminar_overview(s)),
        occurs_in(s.location@, seminar_overview(s)),
{
    let wo = workshop_overview(w);
    reveal_strlit("Workshop ");
    reveal_strlit("Seminar ");
    assert(wo.take(9) =~= "Workshop "@);
    assert(wo =~= "Workshop "@ + w.title@ + (" by "@ + w.instructor@ + " for "@ + decimal(w.duration as nat) + " hours "@));
    lemma_occurs_between("Workshop "@, w.title@, " by "@ + w.instructor@ + " for "@ + decimal(w.duration as nat) + " hours "@);
    assert(wo =~= ("Workshop "@ + w.title@ + " by "@) + w.instructor@ + (" for "@ + decimal(w.duration as nat) + " hours "@));
    lemma_occurs_between("Workshop "@ + w.title@ + " by "@, w.instructor@, " for "@ + decimal(w.duration as nat) + " hours "@);
    assert(wo =~= ("Workshop "@ + w.title@ + " by "@ + w.instructor@ + " for "@) + decimal(w.duration as nat) + " hours "@);
    lemma_occurs_between("Workshop "@ + w.title@ + " by "@ + w.instructor@ + " for "@, decimal(w.duration as nat), " hours "@);
    let so = seminar_overview(s);
    assert(so.take(8) =~= "Seminar "@);
    assert(so =~= "Seminar "@ + s.title@ + (" by "@ + s.speaker@ + " at "@ + s.location@ + " "@));
    lemma_occurs_between("Seminar "@, s.title@, " by "@ + s.speaker@ + " at "@ + s.location@ + " "@);
    assert(so =~= ("Seminar "@ + s.title@ + " by "@) + s.speaker@ + (" at "@ + s.location@ + " "@));
    lemma_occurs_between("Seminar "@ + s.title@ + " by "@, s.speaker@, " at "@ + s.location@ + " "@);
    assert(so =~= ("Seminar "@ + s.title@ + " by "@ + s.speaker@ + " at "@) + s.location@ + " "@);
    lemma_occurs_between("Seminar "@ + s.title@ + " by "@ + s.speaker@ + " at "@, s.location@, " "@);
}

} // verus!
