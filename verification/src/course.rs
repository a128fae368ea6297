//! The catalog record: one course, optionally carrying its embedding.
//!
//! An embedding is held as the raw bit patterns of its single-precision
//! components (`u32` per component); the layer that talks to the embedding
//! service converts between bits and floats. The invariant `wf` says a
//! record either has no embedding yet or one of exactly `EMBED_DIM`
//! components.

use vstd::prelude::*;

verus! {

/// Number of components in every embedding vector the index stores.
pub const EMBED_DIM: usize = 1536;

/// One catalog entry. Identity is the pair (`department_short`, `code`),
/// unique within a snapshot.
#[derive(Debug)]
pub struct Course {
    pub department_full: String,
    pub department_short: String,
    pub code: String,
    pub title: String,
    pub professor: String,
    pub time: String,
    pub description: String,
    pub writ: bool,
    pub soph: bool,
    pub fys: bool,
    pub rpp: bool,
    pub embedding: Option<Vec<u32>>,
}

/// Mathematical model of a `Course`: each text field as a character
/// sequence, the embedding as a sequence of component bit patterns.
#[verifier::ext_equal]
pub struct CourseView {
    pub department_full: Seq<char>,
    pub department_short: Seq<char>,
    pub code: Seq<char>,
    pub title: Seq<char>,
    pub professor: Seq<char>,
    pub time: Seq<char>,
    pub description: Seq<char>,
    pub writ: bool,
    pub soph: bool,
    pub fys: bool,
    pub rpp: bool,
    pub embedding: Option<Seq<u32>>,
}

impl View for Course {
    type V = CourseView;

    open spec fn view(&self) -> CourseView {
        CourseView {
            department_full: self.department_full@,
            department_short: self.department_short@,
            code: self.code@,
            title: self.title@,
            professor: self.professor@,
            time: self.time@,
            description: self.description@,
            writ: self.writ,
            soph: self.soph,
            fys: self.fys,
            rpp: self.rpp,
            embedding: self.embedding.deep_view(),
        }
    }
}

impl DeepView for Course {
    type V = CourseView;

    open spec fn deep_view(&self) -> CourseView {
        self.view()
    }
}

impl CourseView {
    /// A record never carries a partial embedding: either none, or one of
    /// exactly the configured dimensionality.
    pub open spec fn wf(self) -> bool {
        match self.embedding {
            Some(e) => e.len() == EMBED_DIM,
            None => true,
        }
    }

    /// Fully processed: the embedding is present and well-formed.
    pub open spec fn is_embedded(self) -> bool {
        self.embedding is Some && self.wf()
    }

    /// The same record with a different embedding slot.
    pub open spec fn with_embedding(self, e: Option<Seq<u32>>) -> CourseView {
        CourseView { embedding: e, ..self }
    }

    /// The text handed to the embedding service for this record: every
    /// descriptive field, then one line per set attribute flag.
    pub open spec fn document_text(self) -> Seq<char> {
        let base = "Department: "@ + self.department_full + " - "@ + self.department_short
            + "\nCourse code: "@ + self.code + "\nTitle: "@ + self.title + "\nProfessor: "@
            + self.professor + "\nTime: "@ + self.time + "\nDescription: "@ + self.description;
        let w = if self.writ {
            base + "\nThis course satisfies the WRIT / writing requirement."@
        } else {
            base
        };
        let s = if self.soph {
            w + "\nThis course is a SOPH / sophomore seminar."@
        } else {
            w
        };
        let f = if self.fys {
            s + "\nThis course is a FYS / first-year seminar."@
        } else {
            s
        };
        if self.rpp {
            f + "\nThis course is under the RPP / Race Power Privilege category."@
        } else {
            f
        }
    }
}

impl Clone for Course {
    /// A clone is the same record, model for model.
    fn clone(&self) -> (r: Course)
        ensures
            r@ == self@,
    {
        let embedding = match &self.embedding {
            Some(e) => {
                let e2 = e.clone();
                proof {
                    assert(e2@ =~= e@);
                }
                Some(e2)
            },
            None => None,
        };
        let r = Course {
            department_full: self.department_full.clone(),
            department_short: self.department_short.clone(),
            code: self.code.clone(),
            title: self.title.clone(),
            professor: self.professor.clone(),
            time: self.time.clone(),
            description: self.description.clone(),
            writ: self.writ,
            soph: self.soph,
            fys: self.fys,
            rpp: self.rpp,
            embedding,
        };
        proof {
            assert(r@ =~~= self@);
        }
        r
    }
}

impl Course {
    /// Render the text that represents this course to the embedding
    /// service, exactly as `CourseView::document_text` states it.
    pub fn document_text(&self) -> (r: String)
        ensures
            r@ == self@.document_text(),
    {
        let mut out = String::new();
        out.append("Department: ");
        out.append(self.department_full.as_str());
        out.append(" - ");
        out.append(self.department_short.as_str());
        out.append("\nCourse code: ");
        out.append(self.code.as_str());
        out.append("\nTitle: ");
        out.append(self.title.as_str());
        out.append("\nProfessor: ");
        out.append(self.professor.as_str());
        out.append("\nTime: ");
        out.append(self.time.as_str());
        out.append("\nDescription: ");
        out.append(self.description.as_str());
        if self.writ {
            out.append("\nThis course satisfies the WRIT / writing requirement.");
        }
        if self.soph {
            out.append("\nThis course is a SOPH / sophomore seminar.");
        }
        if self.fys {
            out.append("\nThis course is a FYS / first-year seminar.");
        }
        if self.rpp {
            out.append("\nThis course is under the RPP / Race Power Privilege category.");
        }
        proof {
            assert(out@ =~= self@.document_text());
        }
        out
    }

    /// The same record with the embedding slot cleared; the serving layer
    /// uses this to strip vectors from responses.
    pub fn without_embedding(self) -> (r: Course)
        ensures
            r@ == self@.with_embedding(None),
    {
        let r = Course { embedding: None, ..self };
        proof {
            assert(r@ =~~= self@.with_embedding(None));
        }
        r
    }
}

/// Clear the embedding slot of every record, keeping everything else and
/// the order; responses carry no vectors.
pub fn strip_embeddings(courses: Vec<Course>) -> (r: Vec<Course>)
    ensures
        r@.len() == courses@.len(),
        forall|i: int|
            0 <= i < courses@.len() ==> (#[trigger] r@[i])@ == courses@[i]@.with_embedding(None),
{
    let ghost orig = courses@;
    let mut courses = courses;
    let mut r: Vec<Course> = Vec::new();
    while courses.len() > 0
        invariant
            courses@ =~= orig.skip(r@.len() as int),
            r@.len() <= orig.len(),
            forall|i: int|
                0 <= i < r@.len() ==> (#[trigger] r@[i])@ == orig[i]@.with_embedding(None),
        decreases courses@.len(),
    {
        let ghost k = r@.len() as int;
        let c = courses.remove(0);
        r.push(c.without_embedding());
        proof {
            assert(r@[k]@ == orig[k]@.with_embedding(None));
            assert(courses@ =~= orig.skip(r@.len() as int));
        }
    }
    r
}

} // verus!
