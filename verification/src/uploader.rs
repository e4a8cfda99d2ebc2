//! The file-upload widget: the files the user chose are read, whole or by
//! chunks, and what was read is listed.
use vstd::prelude::*;
use vstd::string::*;

verus! {

/// The size, in bytes, of the chunks a file is read by.
pub const CHUNK_SIZE: usize = 100;

/// What the widget is told: a file was read whole, a chunk was read (or
/// the reading ended), the user chose files (how many, and whether to read
/// them by chunks), or the user flipped the by-chunks box. A read file or
/// chunk is given as its printed form.
#[derive(Debug)]
pub enum Msg {
    Loaded(String),
    Chunk(Option<String>),
    Files(usize, bool),
    ToggleByChunks,
}

/// A `Msg` as plain values.
pub enum MsgView {
    Loaded(Seq<char>),
    Chunk(Option<Seq<char>>),
    Files(nat, bool),
    ToggleByChunks,
}

impl View for Msg {
    type V = MsgView;

    open spec fn view(&self) -> MsgView {
        match self {
            Msg::Loaded(f) => MsgView::Loaded(f@),
            Msg::Chunk(c) => MsgView::Chunk(crate::error::opt_string_view(*c)),
            Msg::Files(n, by_chunks) => MsgView::Files(*n as nat, *by_chunks),
            Msg::ToggleByChunks => MsgView::ToggleByChunks,
        }
    }
}

/// How one chosen file is to be read.
#[derive(PartialEq, Eq, Structural, Clone, Copy, Debug)]
pub enum ReadMode {
    Whole,
    ByChunks(usize),
}

/// The state of the widget: the lines listed so far, and the box.
#[derive(Debug)]
pub struct Model {
    pub files: Vec<String>,
    pub by_chunks: bool,
}

/// The state of the widget as plain values.
pub struct ModelView {
    pub files: Seq<Seq<char>>,
    pub by_chunks: bool,
}

impl View for Model {
    type V = ModelView;

    open spec fn view(&self) -> ModelView {
        ModelView { files: self.files@.map_values(|s: String| s@), by_chunks: self.by_chunks }
    }
}

/// The widget before anything happened.
pub open spec fn initial_model() -> ModelView {
    ModelView { files: Seq::empty(), by_chunks: false }
}

/// The state after message `m`: a read file or chunk adds its line, the
/// box flips on its message, and nothing else changes the state.
pub open spec fn model_step(s: ModelView, m: MsgView) -> ModelView {
    match m {
        MsgView::Loaded(f) => ModelView { files: s.files.push("file: "@ + f), ..s },
        MsgView::Chunk(Some(c)) => ModelView { files: s.files.push("chunk: "@ + c), ..s },
        MsgView::ToggleByChunks => ModelView { by_chunks: !s.by_chunks, ..s },
        _ => s,
    }
}

/// Whether the widget is redrawn after message `m`: after every message
/// but the end of a reading by chunks.
pub open spec fn renders(m: MsgView) -> bool {
    !(m matches MsgView::Chunk(None))
}

/// The reads that message `m` starts: one per chosen file, all in the mode
/// the message asks for.
pub open spec fn reads_started(m: MsgView) -> Seq<ReadMode> {
    match m {
        MsgView::Files(n, by_chunks) => Seq::new(
            n,
            |i: int| if by_chunks { ReadMode::ByChunks(CHUNK_SIZE) } else { ReadMode::Whole },
        ),
        _ => Seq::empty(),
    }
}

impl Model {
    /// The widget before anything happened.
    pub fn create() -> (m: Model)
        ensures
            m@ == initial_model(),
    {
        let m = Model { files: Vec::new(), by_chunks: false };
        assert(m@.files =~= Seq::<Seq<char>>::empty());
        m
    }

    /// Takes message `msg` into account: returns whether to redraw, and the
    /// reads to start, in order of the chosen files.
    pub fn update(&mut self, msg: Msg) -> (r: (bool, Vec<ReadMode>))
        ensures
            final(self)@ == model_step(old(self)@, msg@),
            r.0 == renders(msg@),
            r.0 == !(msg@ matches MsgView::Chunk(None)),
            msg is ToggleByChunks ==> r.0 && final(self).by_chunks == !old(self).by_chunks,
            r.1@ == reads_started(msg@),
    {
        let ghost old_files = self@.files;
        proof {
            only_the_end_of_a_chunked_reading_skips_a_redraw(msg@);
        }
        match msg {
            Msg::Loaded(file) => {
                let info = String::from_str("file: ").concat(file.as_str());
                self.files.push(info);
                assert(self@.files =~= old_files.push("file: "@ + file@));
                (true, Vec::new())
            },
            Msg::Chunk(Some(chunk)) => {
                let info = String::from_str("chunk: ").concat(chunk.as_str());
                self.files.push(info);
                assert(self@.files =~= old_files.push("chunk: "@ + chunk@));
                (true, Vec::new())
            },
            Msg::Files(n, chunks) => {
                let mode = if chunks { ReadMode::ByChunks(CHUNK_SIZE) } else { ReadMode::Whole };
                let mut reads: Vec<ReadMode> = Vec::new();
                let mut i: usize = 0;
                while i < n
                    invariant
                        i <= n,
                        reads.len() == i,
                        forall|j: int| 0 <= j < i ==> reads@[j] == mode,
                        mode == (if chunks { ReadMode::ByChunks(CHUNK_SIZE) } else { ReadMode::Whole }),
                    decreases n - i,
                {
                    reads.push(mode);
                    i = i + 1;
                }
                assert(reads@ =~= reads_started(msg@));
                (true, reads)
            },
            Msg::ToggleByChunks => {
                self.by_chunks = !self.by_chunks;
                (true, Vec::new())
            },
            Msg::Chunk(None) => (false, Vec::new()),
        }
    }
}

/// The widget is redrawn after every message — a read file, a read chunk,
/// chosen files, a flip of the box — except the end of a chunked reading.
pub proof fn only_the_end_of_a_chunked_reading_skips_a_redraw(m: MsgView)
    ensures
        renders(m) <==> !(m matches MsgView::Chunk(None)),
        renders(MsgView::ToggleByChunks),
        m matches MsgView::Loaded(_) ==> renders(m),
        m matches MsgView::Chunk(Some(_)) ==> renders(m),
        m matches MsgView::Files(_, _) ==> renders(m),
        !renders(MsgView::Chunk(None)),
{
}

/// Flipping the box flips it, and only it, and redraws the widget.
pub proof fn toggle_flips_the_box(s: ModelView)
    ensures
        model_step(s, MsgView::ToggleByChunks).by_chunks == !s.by_chunks,
        model_step(s, MsgView::ToggleByChunks).files == s.files,
        renders(MsgView::ToggleByChunks),
{
}

/// A file read whole adds exactly one line, which names it after "file: ";
/// a chunk read adds exactly one line, which names it after "chunk: ".
pub proof fn a_read_adds_one_line(s: ModelView, f: Seq<char>)
    ensures
        model_step(s, MsgView::Loaded(f)).files.len() == s.files.len() + 1,
        model_step(s, MsgView::Loaded(f)).files.last() == "file: "@ + f,
        model_step(s, MsgView::Chunk(Some(f))).files.len() == s.files.len() + 1,
        model_step(s, MsgView::Chunk(Some(f))).files.last() == "chunk: "@ + f,
        model_step(s, MsgView::Loaded(f)).by_chunks == s.by_chunks,
{
}

/// Choosing files starts one read per file, by chunks of `CHUNK_SIZE`
/// bytes exactly when asked, and lists nothing yet.
pub proof fn chosen_files_are_each_read(s: ModelView, n: nat, by_chunks: bool)
    ensures
        reads_started(MsgView::Files(n, by_chunks)).len() == n,
        forall|i: int| 0 <= i < n ==> #[trigger] reads_started(MsgView::Files(n, by_chunks))[i]
            == if by_chunks { ReadMode::ByChunks(100) } else { ReadMode::Whole },
        model_step(s, MsgView::Files(n, by_chunks)) == s,
{
}

/// Flipping the box twice leaves the widget as it was.
pub proof fn toggle_twice(s: ModelView)
    ensures
        model_step(model_step(s, MsgView::ToggleByChunks), MsgView::ToggleByChunks) == s,
{
}

/// No message removes or changes a listed line: the lines before a message
/// begin the lines after it.
pub proof fn lines_only_grow(s: ModelView, m: MsgView)
    ensures
        s.files.len() <= model_step(s, m).files.len(),
        model_step(s, m).files.subrange(0, s.files.len() as int) == s.files,
{
    assert(model_step(s, m).files.subrange(0, s.files.len() as int) =~= s.files);
}

} // verus!
