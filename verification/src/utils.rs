//! The per-job workspace and the assembly step.
//!
//! A [`TempDirHandler`] models the job's private temporary directory: one
//! file per stream, named `<sanitized-title>.<suffix>`, each holding the
//! bytes appended so far.  Once a job finishes, [`TempDirHandler::save`]
//! classifies each file by its guessed MIME type and plans the external
//! muxing call: media files become `-i` inputs, stream-copied into one
//! output named from the title; any other file is moved out verbatim.
//! Running the planned command and touching the disk happen outside this
//! crate.

use vstd::prelude::*;

verus! {

/// What sanitizing a file name yields: a function of the name alone.
pub uninterp spec fn spec_sanitized(s: Seq<char>) -> Seq<char>;

/// Relies on sanitize_filename::sanitize_with_options, called with fixed
/// options (windows rules, truncation, empty replacement) so that the
/// result does not depend on the platform.
#[verifier::external_body]
fn sanitize(name: &str) -> (r: String)
    ensures
        r@ == spec_sanitized(name@),
{
    sanitize_filename::sanitize_with_options(
        name,
        sanitize_filename::Options { windows: true, truncate: true, replacement: "" },
    )
}

/// The first MIME type guessed for a file extension: a fixed table
/// lookup, a function of the extension alone.
pub uninterp spec fn spec_mime_of_ext(ext: Seq<char>) -> Option<Seq<char>>;

/// Relies on new_mime_guess::from_ext for the known MIME types of an
/// extension; `first_raw` hands back the first as a string.
#[verifier::external_body]
fn mime_of_ext(ext: &str) -> (r: Option<String>)
    ensures
        r.deep_view() == spec_mime_of_ext(ext@),
{
    new_mime_guess::from_ext(ext).first_raw().map(|m| m.to_string())
}

/// `s` begins with `prefix`.
pub open spec fn spec_starts_with(s: Seq<char>, prefix: Seq<char>) -> bool {
    s.len() >= prefix.len() && s.take(prefix.len() as int) == prefix
}

/// Whether `s` begins with `prefix`.
fn str_starts_with(s: &str, prefix: &str) -> (r: bool)
    ensures
        r == spec_starts_with(s@, prefix@),
{
    let n = prefix.unicode_len();
    if s.unicode_len() < n {
        return false;
    }
    let mut i: usize = 0;
    while i < n
        invariant
            i <= n,
            n == prefix@.len(),
            s@.len() >= n,
            forall|j: int| 0 <= j < i ==> s@[j] == prefix@[j],
        decreases n - i,
    {
        if s.get_char(i) != prefix.get_char(i) {
            proof {
                assert(s@.take(n as int)[i as int] != prefix@[i as int]);
            }
            return false;
        }
        i = i + 1;
    }
    proof {
        assert(s@.take(n as int) =~= prefix@);
    }
    true
}

/// The broad content class of a stream file.
#[derive(Clone, Copy, PartialEq, Eq, Structural, Debug)]
pub enum MediaKind {
    Video,
    Audio,
    /// Anything else, e.g. subtitles; moved out verbatim, never muxed.
    Other,
}

/// The class a guessed MIME type falls in, by its top-level type.
pub open spec fn spec_media_kind(mime: Option<Seq<char>>) -> MediaKind {
    match mime {
        None => MediaKind::Other,
        Some(m) => if spec_starts_with(m, "video/"@) {
            MediaKind::Video
        } else if spec_starts_with(m, "audio/"@) {
            MediaKind::Audio
        } else {
            MediaKind::Other
        },
    }
}

/// Classifies one file suffix by its guessed MIME type.
pub fn media_kind(suffix: &str) -> (k: MediaKind)
    ensures
        k == spec_media_kind(spec_mime_of_ext(suffix@)),
{
    match mime_of_ext(suffix) {
        None => MediaKind::Other,
        Some(m) => {
            if str_starts_with(m.as_str(), "video/") {
                MediaKind::Video
            } else if str_starts_with(m.as_str(), "audio/") {
                MediaKind::Audio
            } else {
                MediaKind::Other
            }
        },
    }
}

/// One file of the workspace: the stream suffix it is named by and the
/// bytes appended so far.
pub struct TempFile {
    pub suffix: String,
    pub data: Vec<u8>,
}

/// The index of the first file with this suffix.
pub open spec fn spec_file_index(files: Seq<TempFile>, suffix: Seq<char>) -> Option<int>
    decreases files.len(),
{
    if files.len() == 0 {
        None
    } else if files[0].suffix@ == suffix {
        Some(0int)
    } else {
        match spec_file_index(files.skip(1), suffix) {
            Some(i) => Some(i + 1),
            None => None,
        }
    }
}

proof fn lemma_file_index_step(files: Seq<TempFile>, suffix: Seq<char>, j: int)
    requires
        0 <= j <= files.len(),
        forall|k: int| 0 <= k < j ==> files[k].suffix@ != suffix,
    ensures
        spec_file_index(files, suffix) == match spec_file_index(files.skip(j), suffix) {
            Some(i) => Some(i + j),
            None => None::<int>,
        },
    decreases j,
{
    if j > 0 {
        lemma_file_index_step(files, suffix, j - 1);
        assert(files.skip(j - 1)[0] == files[j - 1]);
        assert(files.skip(j - 1).skip(1) =~= files.skip(j));
    } else {
        assert(files.skip(0) =~= files);
    }
}

/// The workspace file name of one stream: `<filename>.<suffix>`.
pub open spec fn spec_full_name(filename: Seq<char>, suffix: Seq<char>) -> Seq<char> {
    filename + "."@ + suffix
}

/// The planned assembly of one finished job: the media inputs of the
/// muxing call, the files to move out verbatim, the full argument vector
/// of the external tool, and the output path.
pub struct MuxPlan {
    pub inputs: Vec<String>,
    pub moves: Vec<String>,
    pub args: Vec<String>,
    pub output: String,
}

/// A file that feeds the muxing call rather than being moved out.
pub open spec fn spec_is_media(f: TempFile) -> bool {
    spec_media_kind(spec_mime_of_ext(f.suffix@)) != MediaKind::Other
}

/// The workspace names of the media files, in workspace order.
pub open spec fn spec_media_inputs(files: Seq<TempFile>, filename: Seq<char>) -> Seq<Seq<char>>
    decreases files.len(),
{
    if files.len() == 0 {
        Seq::empty()
    } else {
        let rest = spec_media_inputs(files.drop_last(), filename);
        if spec_is_media(files.last()) {
            rest.push(spec_full_name(filename, files.last().suffix@))
        } else {
            rest
        }
    }
}

/// The workspace names of the files moved out verbatim, in order.
pub open spec fn spec_move_names(files: Seq<TempFile>, filename: Seq<char>) -> Seq<Seq<char>>
    decreases files.len(),
{
    if files.len() == 0 {
        Seq::empty()
    } else {
        let rest = spec_move_names(files.drop_last(), filename);
        if spec_is_media(files.last()) {
            rest
        } else {
            rest.push(spec_full_name(filename, files.last().suffix@))
        }
    }
}

/// One `-i <input>` pair per media input, in order.
pub open spec fn spec_input_args(inputs: Seq<Seq<char>>) -> Seq<Seq<char>>
    decreases inputs.len(),
{
    if inputs.len() == 0 {
        Seq::empty()
    } else {
        spec_input_args(inputs.drop_last()) + seq!["-i"@, inputs.last()]
    }
}

/// The output path of the muxed file: `<save_dir>/<filename>.mp4`.
pub open spec fn spec_output_name(save_dir: Seq<char>, filename: Seq<char>) -> Seq<char> {
    save_dir + "/"@ + filename + ".mp4"@
}

/// The fixed argument shape of the muxing invocation: overwrite, the
/// media inputs, stream-copied codecs, the output path.
pub open spec fn spec_mux_args(inputs: Seq<Seq<char>>, output: Seq<char>) -> Seq<Seq<char>> {
    seq!["-y"@] + spec_input_args(inputs) + seq!["-c:v"@, "copy"@, "-c:a"@, "copy"@, output]
}

/// The job's workspace: its sanitized file name stem and one file per
/// stream suffix written so far.
pub struct TempDirHandler {
    pub filename: String,
    pub files: Vec<TempFile>,
}

impl TempDirHandler {
    /// Suffixes are unique: each stream owns one file.
    pub open spec fn wf(&self) -> bool {
        forall|i: int, j: int|
            0 <= i < j < self.files@.len() ==> (#[trigger] self.files@[i]).suffix@ != (
            #[trigger] self.files@[j]).suffix@
    }

    /// A fresh workspace for a job title; the title is sanitized before
    /// it is used as a path component.
    pub fn new(filename: &str) -> (h: TempDirHandler)
        ensures
            h.wf(),
            h.filename@ == spec_sanitized(filename@),
            h.files@.len() == 0,
    {
        TempDirHandler { filename: sanitize(filename), files: Vec::new() }
    }

    /// Appends `buf` to the file of stream `suffix`, creating it on first
    /// write.  Nothing else in the workspace moves.
    pub fn write(&mut self, suffix: &str, buf: &[u8])
        requires
            old(self).wf(),
        ensures
            final(self).wf(),
            final(self).filename == old(self).filename,
            match spec_file_index(old(self).files@, suffix@) {
                Some(i) => {
                    &&& final(self).files@.len() == old(self).files@.len()
                    &&& forall|j: int|
                        0 <= j < old(self).files@.len() && j != i ==> final(self).files@[j] == old(
                            self,
                        ).files@[j]
                    &&& final(self).files@[i].suffix == old(self).files@[i].suffix
                    &&& final(self).files@[i].data@ == old(self).files@[i].data@ + buf@
                },
                None => {
                    &&& final(self).files@.len() == old(self).files@.len() + 1
                    &&& final(self).files@.take(old(self).files@.len() as int) == old(self).files@
                    &&& final(self).files@.last().suffix@ == suffix@
                    &&& final(self).files@.last().data@ == buf@
                },
            },
    {
        let suffix_s: String = suffix.to_owned();
        let mut j: usize = 0;
        let n = self.files.len();
        while j < n
            invariant
                j <= n,
                n == self.files@.len(),
                suffix_s@ == suffix@,
                *self == *old(self),
                old(self).wf(),
                forall|k: int| 0 <= k < j ==> self.files@[k].suffix@ != suffix@,
            decreases n - j,
        {
            if self.files[j].suffix == suffix_s {
                proof {
                    lemma_file_index_step(self.files@, suffix@, j as int);
                    assert(self.files@.skip(j as int)[0] == self.files@[j as int]);
                }
                let mut f = TempFile { suffix: String::new(), data: Vec::new() };
                core::mem::swap(&mut f, &mut self.files[j]);
                f.data.extend_from_slice(buf);
                self.files[j] = f;
                proof {
                    assert forall|a: int, b: int|
                        0 <= a < b < self.files@.len() implies self.files@[a].suffix@
                        != self.files@[b].suffix@ by {
                        if a != j {
                            assert(self.files@[a] == old(self).files@[a]);
                        }
                        if b != j {
                            assert(self.files@[b] == old(self).files@[b]);
                        }
                        assert(self.files@[a].suffix == old(self).files@[a].suffix);
                        assert(self.files@[b].suffix == old(self).files@[b].suffix);
                        assert(old(self).files@[a].suffix@ != old(self).files@[b].suffix@);
                    }
                }
                return ;
            }
            j = j + 1;
        }
        proof {
            lemma_file_index_step(self.files@, suffix@, n as int);
            assert(self.files@.skip(n as int).len() == 0);
        }
        let mut data: Vec<u8> = Vec::new();
        data.extend_from_slice(buf);
        self.files.push(TempFile { suffix: suffix.to_owned(), data });
        proof {
            assert(final(self).files@.take(old(self).files@.len() as int) =~= old(self).files@);
        }
    }

    /// The bytes written so far for stream `suffix`, if any.
    pub fn read(&self, suffix: &str) -> (r: Option<&Vec<u8>>)
        ensures
            match spec_file_index(self.files@, suffix@) {
                Some(i) => r matches Some(v) && v@ == self.files@[i].data@,
                None => r is None,
            },
    {
        let suffix_s: String = suffix.to_owned();
        let mut j: usize = 0;
        let n = self.files.len();
        while j < n
            invariant
                j <= n,
                n == self.files@.len(),
                suffix_s@ == suffix@,
                forall|k: int| 0 <= k < j ==> self.files@[k].suffix@ != suffix@,
            decreases n - j,
        {
            if self.files[j].suffix == suffix_s {
                proof {
                    lemma_file_index_step(self.files@, suffix@, j as int);
                    assert(self.files@.skip(j as int)[0] == self.files@[j as int]);
                }
                return Some(&self.files[j].data);
            }
            j = j + 1;
        }
        proof {
            lemma_file_index_step(self.files@, suffix@, n as int);
        }
        None
    }

    /// The workspace file name of stream `suffix`.
    pub fn full_name(&self, suffix: &str) -> (r: String)
        ensures
            r@ == spec_full_name(self.filename@, suffix@),
    {
        let mut r = self.filename.clone();
        proof {
            reveal_strlit(".");
        }
        r.append(".");
        r.append(suffix);
        proof {
            assert(r@ =~= spec_full_name(self.filename@, suffix@));
        }
        r
    }

    /// Plans the assembly of this workspace, to run once the job has
    /// finished: every audio or video file becomes an `-i` input of one
    /// stream-copying invocation of the external muxing tool, writing
    /// `<save_dir>/<filename>.mp4`; every other file is listed to be
    /// moved out verbatim.
    pub fn save(&self, save_dir: &str) -> (plan: MuxPlan)
        ensures
            plan.inputs.deep_view() == spec_media_inputs(self.files@, self.filename@),
            plan.moves.deep_view() == spec_move_names(self.files@, self.filename@),
            plan.output@ == spec_output_name(save_dir@, self.filename@),
            plan.args.deep_view() == spec_mux_args(
                spec_media_inputs(self.files@, self.filename@),
                spec_output_name(save_dir@, self.filename@),
            ),
    {
        let mut inputs: Vec<String> = Vec::new();
        let mut moves: Vec<String> = Vec::new();
        let n = self.files.len();
        let mut i: usize = 0;
        proof {
            assert(self.files@.take(0) =~= Seq::<TempFile>::empty());
            assert(inputs.deep_view() =~~= Seq::<Seq<char>>::empty());
            assert(moves.deep_view() =~~= Seq::<Seq<char>>::empty());
        }
        while i < n
            invariant
                i <= n,
                n == self.files@.len(),
                inputs.deep_view() == spec_media_inputs(self.files@.take(i as int), self.filename@),
                moves.deep_view() == spec_move_names(self.files@.take(i as int), self.filename@),
            decreases n - i,
        {
            let kind = media_kind(self.files[i].suffix.as_str());
            let name = self.full_name(self.files[i].suffix.as_str());
            let ghost inputs0 = inputs.deep_view();
            let ghost moves0 = moves.deep_view();
            proof {
                assert(self.files@.take(i + 1).drop_last() =~= self.files@.take(i as int));
                assert(self.files@.take(i + 1).last() == self.files@[i as int]);
            }
            if matches!(kind, MediaKind::Video | MediaKind::Audio) {
                inputs.push(name);
                proof {
                    assert(spec_is_media(self.files@[i as int]));
                    assert(inputs.deep_view() =~~= inputs0.push(
                        spec_full_name(self.filename@, self.files@[i as int].suffix@),
                    ));
                    assert(moves.deep_view() == spec_move_names(
                        self.files@.take(i + 1),
                        self.filename@,
                    ));
                    assert(inputs.deep_view() == spec_media_inputs(
                        self.files@.take(i + 1),
                        self.filename@,
                    ));
                }
            } else {
                moves.push(name);
                proof {
                    assert(!spec_is_media(self.files@[i as int]));
                    assert(moves.deep_view() =~~= moves0.push(
                        spec_full_name(self.filename@, self.files@[i as int].suffix@),
                    ));
                    assert(inputs.deep_view() == spec_media_inputs(
                        self.files@.take(i + 1),
                        self.filename@,
                    ));
                    assert(moves.deep_view() == spec_move_names(
                        self.files@.take(i + 1),
                        self.filename@,
                    ));
                }
            }
            i = i + 1;
        }
        proof {
            assert(self.files@.take(n as int) =~= self.files@);
        }
        let mut output: String = save_dir.to_owned();
        proof {
            reveal_strlit("/");
            reveal_strlit(".mp4");
        }
        output.append("/");
        output.append(self.filename.as_str());
        output.append(".mp4");
        proof {
            assert(output@ =~= spec_output_name(save_dir@, self.filename@));
        }
        let mut args: Vec<String> = Vec::new();
        args.push("-y".to_owned());
        let ghost inputs_dv = inputs.deep_view();
        let m = inputs.len();
        let mut k: usize = 0;
        proof {
            assert(inputs_dv.take(0) =~= Seq::<Seq<char>>::empty());
            assert(args.deep_view() =~~= seq!["-y"@] + spec_input_args(inputs_dv.take(0)));
        }
        while k < m
            invariant
                k <= m,
                m == inputs@.len(),
                inputs_dv == inputs.deep_view(),
                args.deep_view() == seq!["-y"@] + spec_input_args(inputs_dv.take(k as int)),
            decreases m - k,
        {
            let ghost args0 = args.deep_view();
            args.push("-i".to_owned());
            proof {
                assert(args.deep_view() =~~= args0.push("-i"@));
            }
            let ghost args1 = args.deep_view();
            args.push(inputs[k].clone());
            proof {
                assert(inputs@[k as int].deep_view() == inputs_dv[k as int]);
                assert(args.deep_view() =~~= args1.push(inputs_dv[k as int]));
                assert(inputs_dv.take(k + 1).drop_last() =~= inputs_dv.take(k as int));
                assert(inputs_dv.take(k + 1).last() == inputs_dv[k as int]);
                assert(args.deep_view() =~~= seq!["-y"@] + spec_input_args(inputs_dv.take(k + 1)));
            }
            k = k + 1;
        }
        let ghost args_mid = args.deep_view();
        args.push("-c:v".to_owned());
        args.push("copy".to_owned());
        args.push("-c:a".to_owned());
        args.push("copy".to_owned());
        args.push(output.clone());
        proof {
            assert(inputs_dv.take(m as int) =~= inputs_dv);
            assert(args.deep_view() =~~= args_mid + seq![
                "-c:v"@,
                "copy"@,
                "-c:a"@,
                "copy"@,
                output@,
            ]);
            assert(args.deep_view() =~~= spec_mux_args(inputs_dv, output@));
        }
        MuxPlan { inputs, moves, args, output }
    }

    /// The destination of a verbatim move: `<to>/<filename>`.
    pub fn move_(&self, filename: &str, to: &str) -> (r: String)
        ensures
            r@ == to@ + "/"@ + filename@,
    {
        let mut r = to.to_owned();
        proof {
            reveal_strlit("/");
        }
        r.append("/");
        r.append(filename);
        proof {
            assert(r@ =~= to@ + "/"@ + filename@);
        }
        r
    }
}

} // verus!
