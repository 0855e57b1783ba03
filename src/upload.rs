use vstd::prelude::*;

verus! {

/// One part of a multipart request body, fully buffered.
pub struct UploadField {
    pub name: Option<String>,
    pub file_name: Option<String>,
    pub payload: Vec<u8>,
}

/// A file to create or overwrite in the upload directory.
pub struct FileWrite {
    pub path: String,
    pub contents: Vec<u8>,
}

impl View for FileWrite {
    type V = (Seq<char>, Seq<u8>);

    open spec fn view(&self) -> (Seq<char>, Seq<u8>) {
        (self.path@, self.contents@)
    }
}

/// Why an upload request is refused before anything is written.
#[derive(PartialEq, Eq, Structural, Clone, Copy, Debug)]
pub enum UploadError {
    /// The field at `index` carries no filename.
    MissingFilename { index: usize },
    /// The filename of the field at `index` could leave the upload directory.
    UnsafeFilename { index: usize },
}

/// What the log mode records of one field: its name, its filename and the
/// length of its payload.
pub struct FieldSummary {
    pub name: Option<String>,
    pub file_name: Option<String>,
    pub length: usize,
}

/// The body answered once an upload request has been saved.
pub open spec fn upload_success_text() -> Seq<char> {
    "File uploaded successfully!"@
}

/// A character that may not appear in a stored filename.
pub open spec fn is_forbidden_char(c: char) -> bool {
    c == '/' || c == '\\' || c == '\0' || c == ':'
}

/// A filename names an entry of the upload directory itself: it is non-empty,
/// is neither `.` nor `..`, and holds no path separator, NUL or drive colon.
pub open spec fn safe_filename(s: Seq<char>) -> bool {
    &&& s.len() > 0
    &&& s != seq!['.']
    &&& s != seq!['.', '.']
    &&& forall|i: int| 0 <= i < s.len() ==> !is_forbidden_char(#[trigger] s[i])
}

/// A field can be saved: it carries a filename and that name is safe.
pub open spec fn field_savable(f: UploadField) -> bool {
    f.file_name is Some && safe_filename(f.file_name->0@)
}

/// The error reported for an unsavable field at position `index`.
pub open spec fn field_error(f: UploadField, index: usize) -> UploadError {
    if f.file_name is None {
        UploadError::MissingFilename { index }
    } else {
        UploadError::UnsafeFilename { index }
    }
}

/// Every field of the request can be saved.
pub open spec fn all_savable(fields: Seq<UploadField>) -> bool {
    forall|i: int| 0 <= i < fields.len() ==> field_savable(#[trigger] fields[i])
}

/// The write that a savable field asks for: its filename and its payload.
pub open spec fn field_write(f: UploadField) -> (Seq<char>, Seq<u8>) {
    (f.file_name->0@, f.payload@)
}

/// The writes of a request, one per field, in arrival order.
pub open spec fn field_writes(fields: Seq<UploadField>) -> Seq<(Seq<char>, Seq<u8>)> {
    fields.map_values(|f: UploadField| field_write(f))
}

/// The directory, as a map from filename to contents, after the writes are
/// performed in order; each write creates its file or overwrites it.
pub open spec fn apply_writes(
    dir: Map<Seq<char>, Seq<u8>>,
    ws: Seq<(Seq<char>, Seq<u8>)>,
) -> Map<Seq<char>, Seq<u8>>
    decreases ws.len(),
{
    if ws.len() == 0 {
        dir
    } else {
        apply_writes(dir, ws.drop_last()).insert(ws.last().0, ws.last().1)
    }
}

/// The upload directory after a request's fields are saved.
pub open spec fn saved_files(
    dir: Map<Seq<char>, Seq<u8>>,
    fields: Seq<UploadField>,
) -> Map<Seq<char>, Seq<u8>> {
    apply_writes(dir, field_writes(fields))
}

/// No field after position `i` carries the filename of field `i`.
pub open spec fn last_with_its_name(fields: Seq<UploadField>, i: int) -> bool {
    forall|j: int|
        i < j < fields.len() ==> (#[trigger] fields[j]).file_name->0@ != fields[i].file_name->0@
}

/// The filenames that a request's fields carry.
pub open spec fn field_names(fields: Seq<UploadField>) -> Set<Seq<char>> {
    Set::new(|k: Seq<char>| exists|i: int| 0 <= i < fields.len() && fields[i].file_name->0@ == k)
}

/// Some write of `ws` names `k`.
pub open spec fn writes_name(ws: Seq<(Seq<char>, Seq<u8>)>, k: Seq<char>) -> bool {
    exists|i: int| 0 <= i < ws.len() && ws[i].0 == k
}

/// Performing writes in order leaves an entry for each name written and no
/// other new entry.
proof fn lemma_apply_writes_dom(dir: Map<Seq<char>, Seq<u8>>, ws: Seq<(Seq<char>, Seq<u8>)>, k: Seq<char>)
    ensures
        apply_writes(dir, ws).contains_key(k) <==> (dir.contains_key(k) || writes_name(ws, k)),
    decreases ws.len(),
{
    if ws.len() > 0 {
        let prefix = ws.drop_last();
        let n = ws.len() - 1;
        lemma_apply_writes_dom(dir, prefix, k);
        if writes_name(ws, k) {
            let i = choose|i: int| 0 <= i < ws.len() && ws[i].0 == k;
            if i < n {
                assert(prefix[i] == ws[i]);
            }
        }
        if writes_name(prefix, k) {
            let i = choose|i: int| 0 <= i < prefix.len() && prefix[i].0 == k;
            assert(ws[i] == prefix[i]);
        }
    }
}

/// After writes performed in order, a name holds what the last write of it held.
proof fn lemma_apply_writes_last(dir: Map<Seq<char>, Seq<u8>>, ws: Seq<(Seq<char>, Seq<u8>)>, i: int)
    requires
        0 <= i < ws.len(),
        forall|j: int| i < j < ws.len() ==> (#[trigger] ws[j]).0 != ws[i].0,
    ensures
        apply_writes(dir, ws)[ws[i].0] == ws[i].1,
    decreases ws.len(),
{
    let prefix = ws.drop_last();
    let n = ws.len() - 1;
    if i < n {
        assert(ws[n].0 != ws[i].0);
        assert forall|j: int| i < j < prefix.len() implies (#[trigger] prefix[j]).0 != prefix[i].0 by {
            assert(prefix[j] == ws[j]);
        }
        lemma_apply_writes_last(dir, prefix, i);
    }
}

/// Saving a request whose fields can all be saved leaves a file under the
/// filename of each field; the field that is the last to carry that name
/// leaves its payload there, byte for byte.
pub proof fn lemma_saved_file_holds_payload(
    dir: Map<Seq<char>, Seq<u8>>,
    fields: Seq<UploadField>,
    i: int,
)
    requires
        all_savable(fields),
        0 <= i < fields.len(),
    ensures
        saved_files(dir, fields).contains_key(fields[i].file_name->0@),
        last_with_its_name(fields, i) ==> saved_files(dir, fields)[fields[i].file_name->0@]
            == fields[i].payload@,
{
    let ws = field_writes(fields);
    assert(ws[i].0 == fields[i].file_name->0@);
    lemma_apply_writes_dom(dir, ws, ws[i].0);
    if last_with_its_name(fields, i) {
        assert forall|j: int| i < j < ws.len() implies (#[trigger] ws[j]).0 != ws[i].0 by {
            assert(ws[j].0 == fields[j].file_name->0@);
        }
        lemma_apply_writes_last(dir, ws, i);
    }
}

/// Where several fields carry one filename, the file ends up holding the
/// payload of the last of them.
pub proof fn lemma_last_write_wins(
    dir: Map<Seq<char>, Seq<u8>>,
    fields: Seq<UploadField>,
    i: int,
    j: int,
)
    requires
        all_savable(fields),
        0 <= i < j < fields.len(),
        fields[i].file_name->0@ == fields[j].file_name->0@,
        last_with_its_name(fields, j),
    ensures
        saved_files(dir, fields)[fields[i].file_name->0@] == fields[j].payload@,
{
    lemma_saved_file_holds_payload(dir, fields, j);
}

/// Saving a request adds to the directory the files that its fields name and
/// nothing else: no other entry is left behind.
pub proof fn lemma_no_stray_files(dir: Map<Seq<char>, Seq<u8>>, fields: Seq<UploadField>)
    requires
        all_savable(fields),
    ensures
        saved_files(dir, fields).dom() == dir.dom().union(field_names(fields)),
{
    let ws = field_writes(fields);
    assert forall|k: Seq<char>|
        saved_files(dir, fields).dom().contains(k) <==> dir.dom().union(
            field_names(fields),
        ).contains(k) by {
        lemma_apply_writes_dom(dir, ws, k);
        if writes_name(ws, k) {
            let i = choose|i: int| 0 <= i < ws.len() && ws[i].0 == k;
            assert(fields[i].file_name->0@ == k);
        }
        if field_names(fields).contains(k) {
            let i = choose|i: int| 0 <= i < fields.len() && fields[i].file_name->0@ == k;
            assert(ws[i].0 == k);
        }
    }
    assert(saved_files(dir, fields).dom() =~= dir.dom().union(field_names(fields)));
}

/// A field with an empty payload still leaves a file, and that file is empty.
pub proof fn lemma_empty_payload_leaves_empty_file(
    dir: Map<Seq<char>, Seq<u8>>,
    fields: Seq<UploadField>,
    i: int,
)
    requires
        all_savable(fields),
        0 <= i < fields.len(),
        fields[i].payload@.len() == 0,
        last_with_its_name(fields, i),
    ensures
        saved_files(dir, fields).contains_key(fields[i].file_name->0@),
        saved_files(dir, fields)[fields[i].file_name->0@] == Seq::<u8>::empty(),
{
    lemma_saved_file_holds_payload(dir, fields, i);
    assert(fields[i].payload@ =~= Seq::<u8>::empty());
}

impl UploadError {
    /// The position of the field that the error is about.
    pub fn index(&self) -> (r: usize)
        ensures
            r == match *self {
                UploadError::MissingFilename { index } => index,
                UploadError::UnsafeFilename { index } => index,
            },
    {
        match *self {
            UploadError::MissingFilename { index } => index,
            UploadError::UnsafeFilename { index } => index,
        }
    }

    /// The HTTP status answered for a refused upload: the client sent it wrong.
    pub fn status_code(&self) -> (r: u16)
        ensures
            r == 400,
    {
        400
    }
}

/// The body answered once an upload request has been saved.
pub fn upload_success_message() -> (r: &'static str)
    ensures
        r@ == upload_success_text(),
{
    "File uploaded successfully!"
}

/// What the log mode records of a request: one summary per field, in arrival
/// order, each with the field's name, filename and payload length.
pub fn summarize_fields(fields: &Vec<UploadField>) -> (r: Vec<FieldSummary>)
    ensures
        r@.len() == fields@.len(),
        forall|i: int|
            0 <= i < r@.len() ==> (#[trigger] r@[i]).name == fields@[i].name && r@[i].file_name
                == fields@[i].file_name && r@[i].length == fields@[i].payload@.len(),
{
    let mut r: Vec<FieldSummary> = Vec::new();
    let mut i: usize = 0;
    while i < fields.len()
        invariant
            0 <= i <= fields@.len(),
            r@.len() == i,
            forall|j: int|
                0 <= j < i ==> (#[trigger] r@[j]).name == fields@[j].name && r@[j].file_name
                    == fields@[j].file_name && r@[j].length == fields@[j].payload@.len(),
        decreases fields@.len() - i,
    {
        let f = &fields[i];
        let name = match &f.name {
            Some(n) => Some(n.clone()),
            None => None,
        };
        let file_name = match &f.file_name {
            Some(n) => Some(n.clone()),
            None => None,
        };
        r.push(FieldSummary { name, file_name, length: f.payload.len() });
        i += 1;
    }
    r
}

/// Tells whether `s` may be used as the name of a stored file.
pub fn is_safe_filename(s: &str) -> (r: bool)
    ensures
        r == safe_filename(s@),
{
    let n = s.unicode_len();
    if n == 0 {
        return false;
    }
    let first = s.get_char(0);
    if n == 1 && first == '.' {
        assert(s@ =~= seq!['.']);
        return false;
    }
    if n == 2 && first == '.' && s.get_char(1) == '.' {
        assert(s@ =~= seq!['.', '.']);
        return false;
    }
    let mut i: usize = 0;
    while i < n
        invariant
            0 <= i <= n,
            n == s@.len(),
            forall|j: int| 0 <= j < i ==> !is_forbidden_char(#[trigger] s@[j]),
        decreases n - i,
    {
        let c = s.get_char(i);
        if c == '/' || c == '\\' || c == '\0' || c == ':' {
            assert(is_forbidden_char(s@[i as int]));
            return false;
        }
        i += 1;
    }
    true
}

/// Checks every field of a request and lists the writes that save it: one per
/// field, in arrival order, each naming the field's filename and holding its
/// payload. Nothing is to be written unless every field can be saved; otherwise
/// the first field that cannot is reported.
pub fn plan_save(fields: &Vec<UploadField>) -> (r: Result<Vec<FileWrite>, UploadError>)
    ensures
        r is Ok <==> all_savable(fields@),
        r matches Ok(ws) ==> ws@.map_values(|w: FileWrite| w@) == field_writes(fields@),
        r matches Err(e) ==> exists|i: int|
            0 <= i < fields@.len() && !field_savable(#[trigger] fields@[i]) && all_savable(
                fields@.take(i),
            ) && e == field_error(fields@[i], i as usize),
{
    let mut ws: Vec<FileWrite> = Vec::new();
    let mut i: usize = 0;
    while i < fields.len()
        invariant
            0 <= i <= fields@.len(),
            all_savable(fields@.take(i as int)),
            ws@.map_values(|w: FileWrite| w@) == field_writes(fields@.take(i as int)),
        decreases fields@.len() - i,
    {
        let f = &fields[i];
        match &f.file_name {
            None => {
                return Err(UploadError::MissingFilename { index: i });
            },
            Some(name) => {
                if !is_safe_filename(name.as_str()) {
                    return Err(UploadError::UnsafeFilename { index: i });
                }
                let w = FileWrite { path: name.clone(), contents: f.payload.clone() };
                assert(w.contents@ =~= f.payload@);
                assert(w@ == field_write(fields@[i as int]));
                let ghost before = ws@;
                ws.push(w);
                proof {
                    let next = fields@.take(i as int + 1);
                    assert(next =~= fields@.take(i as int).push(fields@[i as int]));
                    assert(ws@ == before.push(w));
                    assert(field_writes(next) =~= field_writes(fields@.take(i as int)).push(
                        field_write(fields@[i as int]),
                    ));
                    assert(ws@.map_values(|w: FileWrite| w@) =~= field_writes(next));
                }
                i += 1;
            },
        }
    }
    assert(fields@.take(i as int) =~= fields@);
    Ok(ws)
}

} // verus!
