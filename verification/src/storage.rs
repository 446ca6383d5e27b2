//! Loading the registry: what to do with what the storage held, and how the
//! decoded records become a registry again. Reading, writing and decoding
//! the document are left to the caller.

use vstd::prelude::*;
use crate::config::{
    contains_name, inserted, lemma_inserted_keeps_unique, unique_names, Config, Program,
    ProgramView,
};
use crate::error::{AppError, AppErrorView};

verus! {

/// Whether `c` is a blank: a space, a tab, a line feed or a carriage return.
pub open spec fn is_blank_char(c: char) -> bool {
    c == ' ' || c == '\t' || c == '\n' || c == '\r'
}

/// Whether `text` holds nothing but blanks. The empty text is blank.
pub open spec fn is_blank(text: Seq<char>) -> bool {
    forall|i: int| 0 <= i < text.len() ==> is_blank_char(#[trigger] text[i])
}

/// Whether `text` holds nothing but blanks.
pub fn blank(text: &str) -> (b: bool)
    ensures
        b == is_blank(text@),
{
    let len: usize = text.unicode_len();
    let mut i: usize = 0;
    while i < len
        invariant
            i <= len,
            len == text@.len(),
            forall|j: int| 0 <= j < i ==> is_blank_char(#[trigger] text@[j]),
        decreases len - i,
    {
        let c = text.get_char(i);
        if !(c == ' ' || c == '\t' || c == '\n' || c == '\r') {
            return false;
        }
        i = i + 1;
    }
    true
}

/// What is to be done with what the storage location held.
#[derive(Debug, PartialEq, Eq)]
pub enum LoadStep {
    /// Nothing was stored. The storage is to be created and the registry
    /// given here, which is empty, written to it; work goes on with it.
    Initialize(Config),
    /// The stored document was blank. Work goes on with the registry given
    /// here, which is empty; nothing is to be decoded.
    Ready(Config),
    /// The document given here is to be decoded into records, and the
    /// outcome handed to [`Config::restore`].
    Decode(String),
}

/// A [`LoadStep`] as a mathematical value.
pub enum LoadStepView {
    Initialize(Seq<ProgramView>),
    Ready(Seq<ProgramView>),
    Decode(Seq<char>),
}

impl View for LoadStep {
    type V = LoadStepView;

    open spec fn view(&self) -> LoadStepView {
        match self {
            LoadStep::Initialize(c) => LoadStepView::Initialize(c@),
            LoadStep::Ready(c) => LoadStepView::Ready(c@),
            LoadStep::Decode(t) => LoadStepView::Decode(t@),
        }
    }
}

/// The step that loading takes on a storage location that held `stored`,
/// where `None` stands for a location at which nothing exists.
pub open spec fn load_step(stored: Option<Seq<char>>) -> LoadStepView {
    match stored {
        None => LoadStepView::Initialize(Seq::<ProgramView>::empty()),
        Some(text) => if is_blank(text) {
            LoadStepView::Ready(Seq::<ProgramView>::empty())
        } else {
            LoadStepView::Decode(text)
        },
    }
}

/// The views of the records of `v`, in order.
pub open spec fn record_views(v: Seq<Program>) -> Seq<ProgramView> {
    Seq::new(v.len(), |i: int| v[i]@)
}

/// The registry that holds `records`, inserted one after the other. It is
/// a failure of the stored data if a name occurs twice; the failure carries
/// the message of the duplicate.
pub open spec fn restored(records: Seq<ProgramView>) -> Result<Seq<ProgramView>, AppErrorView>
    decreases records.len(),
{
    if records.len() == 0 {
        Ok(Seq::<ProgramView>::empty())
    } else {
        match restored(records.drop_last()) {
            Err(e) => Err(e),
            Ok(r) => match inserted(r, records.last()) {
                Ok(after) => Ok(after),
                Err(e) => Err(AppErrorView::IOFailure(e.message())),
            },
        }
    }
}

/// What loading makes of the decoder's outcome: a decoding failure is a
/// failure of the stored data with the same cause.
pub open spec fn restored_from(decoded: Result<Seq<ProgramView>, Seq<char>>) -> Result<
    Seq<ProgramView>,
    AppErrorView,
> {
    match decoded {
        Ok(records) => restored(records),
        Err(cause) => Err(AppErrorView::IOFailure(cause)),
    }
}

/// The view of a decoder's outcome.
pub open spec fn decoded_view(decoded: Result<Vec<Program>, String>) -> Result<
    Seq<ProgramView>,
    Seq<char>,
> {
    match decoded {
        Ok(records) => Ok(record_views(records@)),
        Err(cause) => Err(cause@),
    }
}

impl Config {
    /// The first step of loading the registry from a storage location that
    /// held `stored`, where `None` stands for a location at which nothing
    /// exists. Nothing is decoded for a blank document.
    pub fn deserialize(stored: Option<&str>) -> (step: LoadStep)
        ensures
            step@ == load_step(
                match stored {
                    Some(t) => Some(t@),
                    None => None,
                },
            ),
    {
        match stored {
            None => LoadStep::Initialize(Config::new()),
            Some(text) => {
                if blank(text) {
                    LoadStep::Ready(Config::new())
                } else {
                    LoadStep::Decode(text.to_owned())
                }
            },
        }
    }

    /// The records as they are to be written to the storage: every record,
    /// in registry order.
    pub fn serialize(&self) -> (records: Vec<Program>)
        ensures
            record_views(records@) == self@,
    {
        let copy = self.clone();
        assert(record_views(copy.programs@) =~= copy@);
        copy.programs
    }

    /// The last step of loading the registry: from what the decoder made of
    /// the stored document to the registry. It is a failure of the stored
    /// data if the document could not be decoded or names a program twice.
    pub fn restore(decoded: Result<Vec<Program>, String>) -> (res: Result<Config, AppError>)
        ensures
            match restored_from(decoded_view(decoded)) {
                Ok(r) => res matches Ok(c) && c@ == r && c.wf(),
                Err(e) => res matches Err(x) && x@ == e,
            },
    {
        let records = match decoded {
            Ok(records) => records,
            Err(cause) => {
                return Err(AppError::IOFailure(cause));
            },
        };
        let mut config = Config::new();
        let mut i: usize = 0;
        assert(record_views(records@).take(0) =~= Seq::<ProgramView>::empty());
        while i < records.len()
            invariant
                i <= records.len(),
                config.wf(),
                decoded_view(decoded) == Ok::<Seq<ProgramView>, Seq<char>>(
                    record_views(records@),
                ),
                restored(record_views(records@).take(i as int)) == Ok::<
                    Seq<ProgramView>,
                    AppErrorView,
                >(config@),
            decreases records.len() - i,
        {
            proof {
                let all = record_views(records@);
                assert(all.take(i + 1).drop_last() =~= all.take(i as int));
                assert(all.take(i + 1).last() == records@[i as int]@);
            }
            match config.push(&records[i]) {
                Ok(()) => {},
                Err(e) => {
                    proof {
                        let all = record_views(records@);
                        assert(restored(all.take(i + 1)) == Err::<Seq<ProgramView>, AppErrorView>(
                            AppErrorView::IOFailure(e@.message()),
                        ));
                        lemma_restored_prefix_fails(all, i + 1);
                    }
                    return Err(AppError::IOFailure(e.message()));
                },
            }
            i = i + 1;
        }
        assert(record_views(records@).take(records.len() as int) =~= record_views(records@));
        Ok(config)
    }
}

/// Records of which a first part cannot be restored cannot be restored, and
/// fail as that part does.
pub proof fn lemma_restored_prefix_fails(records: Seq<ProgramView>, n: int)
    requires
        0 <= n <= records.len(),
        restored(records.take(n)) is Err,
    ensures
        restored(records) == restored(records.take(n)),
    decreases records.len(),
{
    if n < records.len() {
        assert(records.drop_last().take(n) =~= records.take(n));
        lemma_restored_prefix_fails(records.drop_last(), n);
    } else {
        assert(records.take(n) =~= records);
    }
}

/// Loading gives back what was saved: the records that a registry with the
/// invariant lists, once they have been written and decoded again without
/// loss, are restored as the same registry, in the same order.
pub proof fn lemma_load_of_saved(registry: Seq<ProgramView>)
    requires
        unique_names(registry),
    ensures
        restored_from(Ok(registry)) == Ok::<Seq<ProgramView>, AppErrorView>(registry),
{
    lemma_restored_unique(registry);
}

/// Records without a repeated name are restored as they are.
pub proof fn lemma_restored_unique(records: Seq<ProgramView>)
    requires
        unique_names(records),
    ensures
        restored(records) == Ok::<Seq<ProgramView>, AppErrorView>(records),
    decreases records.len(),
{
    if records.len() > 0 {
        let front = records.drop_last();
        assert forall|i: int, j: int| 0 <= i < j < front.len() implies (#[trigger] front[i]).name
            != (#[trigger] front[j]).name by {
            assert(records[i].name != records[j].name);
        }
        lemma_restored_unique(front);
        assert(!contains_name(front, records.last().name)) by {
            if contains_name(front, records.last().name) {
                let i = choose|i: int|
                    0 <= i < front.len() && (#[trigger] front[i]).name == records.last().name;
                assert(records[i].name != records[records.len() - 1].name);
            }
        }
        assert(front.push(records.last()) =~= records);
    } else {
        assert(records =~= Seq::<ProgramView>::empty());
    }
}

/// Records are restored only if no name is repeated among them.
pub proof fn lemma_restored_is_unique(records: Seq<ProgramView>)
    ensures
        restored(records) matches Ok(r) ==> r == records && unique_names(records),
    decreases records.len(),
{
    if records.len() > 0 {
        let front = records.drop_last();
        lemma_restored_is_unique(front);
        if restored(records) is Ok {
            lemma_inserted_keeps_unique(front, records.last());
            assert(front.push(records.last()) =~= records);
        }
    } else {
        assert(records =~= Seq::<ProgramView>::empty());
    }
}

} // verus!
