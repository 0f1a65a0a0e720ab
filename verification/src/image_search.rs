//! The search for the first image among the files of a post.
use vstd::prelude::*;

use crate::api::FileInfo;
use crate::text::starts_with;

verus! {

/// What the server answers.
#[derive(Debug)]
pub enum Answer {
    /// What kind of file the file is, if the server says so.
    Info(Option<FileInfo>),
    /// The bytes of the file, if the server sends them.
    Bytes(Option<Vec<u8>>),
}

/// What the search does next.
#[derive(Debug)]
pub enum SearchStep {
    /// Ask what kind of file this file is.
    GetInfo(String),
    /// Ask for the bytes of this file.
    Download(String),
    /// These are the bytes of the first image.
    Found(Vec<u8>),
    /// There is no image.
    NotFound,
}

/// Where the search stands.
#[verifier::ext_equal]
pub struct SearchView {
    pub file_ids: Seq<String>,
    /// The position of the file that is looked at.
    pub at: int,
    /// That file is an image, and its bytes are awaited.
    pub downloading: bool,
}

/// The file is an image.
pub open spec fn is_image(info: FileInfo) -> bool {
    "image/"@.is_prefix_of(info.mime_type@)
}

/// Where the search stands at its beginning.
pub open spec fn search_start(file_ids: Seq<String>) -> SearchView {
    SearchView { file_ids, at: 0, downloading: false }
}

/// Where the search stands after an answer. An answer that was not asked for
/// changes nothing.
pub open spec fn search_after(state: SearchView, answer: Answer) -> SearchView {
    let passed_over = SearchView { at: state.at + 1, downloading: false, ..state };
    if state.at >= state.file_ids.len() {
        state
    } else {
        match (state.downloading, answer) {
            (false, Answer::Info(Some(info))) => if is_image(info) {
                SearchView { downloading: true, ..state }
            } else {
                passed_over
            },
            (false, Answer::Info(None)) => passed_over,
            (true, Answer::Bytes(None)) => passed_over,
            (true, Answer::Bytes(Some(_))) => SearchView {
                at: state.file_ids.len() as int,
                downloading: false,
                ..state
            },
            _ => state,
        }
    }
}

/// The bytes that end the search, if the answer brings them.
pub open spec fn search_found(state: SearchView, answer: Answer) -> Option<Vec<u8>> {
    if state.at < state.file_ids.len() && state.downloading {
        match answer {
            Answer::Bytes(bytes) => bytes,
            _ => None,
        }
    } else {
        None
    }
}

/// `step` is what a search that stands so does next.
pub open spec fn asks(state: SearchView, step: SearchStep) -> bool {
    if state.at >= state.file_ids.len() {
        step is NotFound
    } else if state.downloading {
        step == SearchStep::Download(state.file_ids[state.at])
    } else {
        step == SearchStep::GetInfo(state.file_ids[state.at])
    }
}

/// A search for the first image among files. A file whose kind or whose bytes
/// the server does not send is passed over.
#[derive(Debug)]
pub struct ImageSearch {
    file_ids: Vec<String>,
    at: usize,
    downloading: bool,
}

impl View for ImageSearch {
    type V = SearchView;

    closed spec fn view(&self) -> SearchView {
        SearchView {
            file_ids: self.file_ids@,
            at: self.at as int,
            downloading: self.downloading,
        }
    }
}

impl ImageSearch {
    #[verifier::type_invariant]
    spec fn well_formed(self) -> bool {
        self.at <= self.file_ids@.len()
    }

    /// A search among the given files.
    pub fn new(file_ids: Vec<String>) -> (search: Self)
        ensures
            search@ == search_start(file_ids@),
    {
        ImageSearch { file_ids, at: 0, downloading: false }
    }

    /// What the search does next.
    pub fn next(&self) -> (step: SearchStep)
        ensures
            asks(self@, step),
    {
        if self.at >= self.file_ids.len() {
            SearchStep::NotFound
        } else if self.downloading {
            SearchStep::Download(self.file_ids[self.at].clone())
        } else {
            SearchStep::GetInfo(self.file_ids[self.at].clone())
        }
    }

    /// Takes an answer in, and says what the search does next.
    pub fn step(&mut self, answer: Answer) -> (step: SearchStep)
        ensures
            final(self)@ == search_after(old(self)@, answer),
            match search_found(old(self)@, answer) {
                Some(bytes) => step == SearchStep::Found(bytes),
                None => asks(final(self)@, step),
            },
    {
        proof {
            use_type_invariant(&*self);
        }
        if self.at < self.file_ids.len() {
            if self.downloading {
                match answer {
                    Answer::Bytes(Some(bytes)) => {
                        self.at = self.file_ids.len();
                        self.downloading = false;
                        return SearchStep::Found(bytes);
                    },
                    Answer::Bytes(None) => {
                        self.at = self.at + 1;
                        self.downloading = false;
                    },
                    _ => {},
                }
            } else {
                match answer {
                    Answer::Info(Some(info)) => {
                        if starts_with(info.mime_type.as_str(), "image/") {
                            self.downloading = true;
                        } else {
                            self.at = self.at + 1;
                        }
                    },
                    Answer::Info(None) => {
                        self.at = self.at + 1;
                    },
                    _ => {},
                }
            }
        }
        self.next()
    }
}

/// What a server has of a file.
pub struct RemoteFile {
    pub info: Option<FileInfo>,
    pub bytes: Option<Vec<u8>>,
}

/// The bytes of the first file that the server calls an image and sends.
pub open spec fn first_image(files: Seq<RemoteFile>) -> Option<Vec<u8>>
    decreases files.len(),
{
    if files.len() == 0 {
        None
    } else if files[0].info is Some && is_image(files[0].info->0) && files[0].bytes is Some {
        files[0].bytes
    } else {
        first_image(files.drop_first())
    }
}

/// What the server answers a search that stands so.
pub open spec fn server_answer(state: SearchView, files: Seq<RemoteFile>) -> Answer {
    if state.downloading {
        Answer::Bytes(files[state.at].bytes)
    } else {
        Answer::Info(files[state.at].info)
    }
}

/// What a search finds that goes on from here until it ends.
pub open spec fn search_result(state: SearchView, files: Seq<RemoteFile>) -> Option<Vec<u8>>
    decreases
            2 * (state.file_ids.len() - state.at) - if state.downloading {
                1int
            } else {
                0int
            },
    when state.at <= state.file_ids.len()
{
    if state.at >= state.file_ids.len() {
        None
    } else {
        let answer = server_answer(state, files);
        match search_found(state, answer) {
            Some(bytes) => Some(bytes),
            None => search_result(search_after(state, answer), files),
        }
    }
}

/// A search that goes on from the file at `at` finds the first image from there.
proof fn lemma_search_from(file_ids: Seq<String>, files: Seq<RemoteFile>, at: int)
    requires
        files.len() == file_ids.len(),
        0 <= at <= file_ids.len(),
    ensures
        search_result(SearchView { file_ids, at, downloading: false }, files) == first_image(
            files.skip(at),
        ),
    decreases file_ids.len() - at,
{
    if at < file_ids.len() {
        lemma_search_from(file_ids, files, at + 1);
        let rest = files.skip(at);
        assert(rest[0] == files[at]);
        assert(rest.drop_first() =~= files.skip(at + 1));
        let asked = SearchView { file_ids, at, downloading: false };
        let awaited = SearchView { file_ids, at, downloading: true };
        let passed_over = SearchView { file_ids, at: at + 1, downloading: false };
        if files[at].info is Some && is_image(files[at].info->0) {
            assert(search_after(asked, server_answer(asked, files)) == awaited);
            assert(search_result(asked, files) == search_result(awaited, files));
            if files[at].bytes is None {
                assert(search_after(awaited, server_answer(awaited, files)) == passed_over);
            }
        } else {
            assert(search_after(asked, server_answer(asked, files)) == passed_over);
        }
    }
}

/// The search ends with the bytes of the first file that the server calls an
/// image and sends, and with nothing where there is none.
pub proof fn law_search_finds_the_first_image(file_ids: Seq<String>, files: Seq<RemoteFile>)
    requires
        files.len() == file_ids.len(),
    ensures
        search_result(search_start(file_ids), files) == first_image(files),
{
    lemma_search_from(file_ids, files, 0);
    assert(files.skip(0) =~= files);
}

/// A file is an image exactly where its kind begins with "image/".
pub proof fn law_kind_tells_an_image(info: FileInfo)
    ensures
        is_image(info) <==> info.mime_type@.len() >= 6 && info.mime_type@.take(6) == seq![
            'i',
            'm',
            'a',
            'g',
            'e',
            '/',
        ],
{
    reveal_strlit("image/");
    assert("image/"@ =~= seq!['i', 'm', 'a', 'g', 'e', '/']);
    if info.mime_type@.len() >= 6 {
        assert(info.mime_type@.take(6) =~= info.mime_type@.subrange(0, 6));
    }
}

/// A search that has run to its end has found the bytes of a file that the server
/// calls an image and sends, before which there is none such; it has found nothing
/// exactly where there is none at all.
pub proof fn law_no_image_stands_before_the_found_one(
    file_ids: Seq<String>,
    files: Seq<RemoteFile>,
) -> (at: int)
    requires
        files.len() == file_ids.len(),
    ensures
        match search_result(search_start(file_ids), files) {
            Some(bytes) => {
                &&& 0 <= at < files.len()
                &&& files[at].info is Some
                &&& "image/"@.is_prefix_of(files[at].info->0.mime_type@)
                &&& files[at].bytes == Some(bytes)
                &&& forall|i: int|
                    0 <= i < at ==> (#[trigger] files[i]).info is None || files[i].bytes is None
                        || !"image/"@.is_prefix_of(files[i].info->0.mime_type@)
            },
            None => forall|i: int|
                0 <= i < files.len() ==> (#[trigger] files[i]).info is None || files[i].bytes is None
                    || !"image/"@.is_prefix_of(files[i].info->0.mime_type@),
        },
{
    law_search_finds_the_first_image(file_ids, files);
    lemma_first_image(files)
}

proof fn lemma_first_image(files: Seq<RemoteFile>) -> (at: int)
    ensures
        match first_image(files) {
            Some(bytes) => {
                &&& 0 <= at < files.len()
                &&& files[at].info is Some
                &&& is_image(files[at].info->0)
                &&& files[at].bytes == Some(bytes)
                &&& forall|i: int|
                    0 <= i < at ==> (#[trigger] files[i]).info is None || files[i].bytes is None
                        || !is_image(files[i].info->0)
            },
            None => forall|i: int|
                0 <= i < files.len() ==> (#[trigger] files[i]).info is None || files[i].bytes is None
                    || !is_image(files[i].info->0),
        },
    decreases files.len(),
{
    if files.len() == 0 {
        0
    } else if files[0].info is Some && is_image(files[0].info->0) && files[0].bytes is Some {
        0
    } else {
        let rest = files.drop_first();
        let later = lemma_first_image(rest);
        assert forall|i: int|
            0 <= i < files.len() && (first_image(rest) is None || i < later
                + 1) implies (#[trigger] files[i]).info is None || files[i].bytes is None
            || !is_image(files[i].info->0) by {
            if i > 0 {
                assert(rest[i - 1] == files[i]);
            }
        }
        later + 1
    }
}

/// A search begins with the first file. It asks for the kind of a file, then, of an
/// image, for its bytes, and ends with these; a file that is no image, or that the
/// server says nothing of or does not send, is followed by the next; and behind the
/// last file the search ends with nothing.
pub proof fn law_search_goes_file_by_file(
    state: SearchView,
    answer: Answer,
    step: SearchStep,
    file_ids: Seq<String>,
)
    requires
        0 <= state.at <= state.file_ids.len(),
    ensures
        search_start(file_ids).file_ids == file_ids,
        search_start(file_ids).at == 0,
        !search_start(file_ids).downloading,
        ({
            let next = search_after(state, answer);
            let found = search_found(state, answer);
            let ended = state.at == state.file_ids.len();
            &&& next.file_ids == state.file_ids
            &&& ended ==> found is None && next == state
            &&& !ended && !state.downloading && answer is Info ==> {
                let called_image = answer->Info_0 is Some && "image/"@.is_prefix_of(
                    answer->Info_0->0.mime_type@,
                );
                &&& found is None
                &&& next.downloading <==> called_image
                &&& next.at == if called_image {
                    state.at
                } else {
                    state.at + 1
                }
            }
            &&& !ended && state.downloading && answer is Bytes ==> {
                &&& found == answer->Bytes_0
                &&& !next.downloading
                &&& next.at == if answer->Bytes_0 is Some {
                    state.file_ids.len() as int
                } else {
                    state.at + 1
                }
            }
            &&& !ended && (state.downloading <==> answer is Info) ==> found is None && next == state
        }),
        asks(state, step) ==> (if state.at == state.file_ids.len() {
            step is NotFound
        } else if state.downloading {
            step is Download && step->Download_0 == state.file_ids[state.at]
        } else {
            step is GetInfo && step->GetInfo_0 == state.file_ids[state.at]
        }),
{
}

} // verus!
