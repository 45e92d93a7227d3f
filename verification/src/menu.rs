use vstd::prelude::*;
use std::path::PathBuf;

verus! {

/// std's `PathBuf`, carried through as an opaque value.
#[verifier::external_type_specification]
#[verifier::external_body]
pub struct ExPathBuf(PathBuf);

/// `PathBuf::clone` (std): gives back a copy of the path.
pub assume_specification[ <PathBuf as Clone>::clone ](p: &PathBuf) -> (r: PathBuf)
    ensures
        r == *p,
;

/// A ROM in the list: the name shown and the file it comes from.
#[derive(Clone, Debug)]
pub struct RomEntry {
    pub name: String,
    pub path: PathBuf,
}

/// Bytes of the menu screen: 256 x 240 RGBA pixels.
pub const MENU_FRAME_BYTES: usize = 245760;

/// The ROM list, the cursor that selects one of its entries, and the menu screen.
pub struct Menu {
    pub roms: Vec<RomEntry>,
    pub selected: usize,
    pub frame_buffer: Vec<u8>,
}

/// The menu screen's background: every pixel dark blue (0, 0, 40), opaque.
pub open spec fn menu_background() -> Seq<u8> {
    Seq::new(
        MENU_FRAME_BYTES as nat,
        |i: int|
            if i % 4 == 2 {
                40u8
            } else if i % 4 == 3 {
                255u8
            } else {
                0u8
            },
    )
}

impl Menu {
    /// A menu over `roms` with the first entry selected and a black screen.
    pub fn new(roms: Vec<RomEntry>) -> (r: Self)
        ensures
            r.roms@ == roms@,
            r.selected == 0,
            r.frame_buffer@ == Seq::new(MENU_FRAME_BYTES as nat, |i: int| 0u8),
    {
        let frame_buffer = vec![0u8; MENU_FRAME_BYTES];
        assert(frame_buffer@ =~= Seq::new(MENU_FRAME_BYTES as nat, |i: int| 0u8));
        Menu { roms, selected: 0, frame_buffer }
    }

    /// Paints the menu screen's background and gives the screen. The texts of
    /// `render_texts` go on top of it; drawing their glyphs is not part of this library.
    pub fn render(&mut self) -> (r: &[u8])
        ensures
            r@ == menu_background(),
            final(self).frame_buffer@ == menu_background(),
            final(self).roms@ == old(self).roms@,
            final(self).selected == old(self).selected,
    {
        let mut buf: Vec<u8> = Vec::new();
        let mut i: usize = 0;
        while i < MENU_FRAME_BYTES / 4
            invariant
                i <= MENU_FRAME_BYTES / 4,
                buf.len() == 4 * i,
                forall|k: int| 0 <= k < buf.len() ==> #[trigger] buf@[k] == menu_background()[k],
            decreases MENU_FRAME_BYTES / 4 - i,
        {
            let ghost before = buf@;
            buf.push(0);
            buf.push(0);
            buf.push(40);
            buf.push(255);
            assert forall|k: int| 0 <= k < buf.len() implies #[trigger] buf@[k] == menu_background()[k] by {
                if k < 4 * i {
                    assert(buf@[k] == before[k]);
                }
            }
            i = i + 1;
        }
        assert(buf@ =~= menu_background());
        self.frame_buffer = buf;
        self.frame_buffer.as_slice()
    }

    /// Moves the cursor one entry up, staying on the first.
    pub fn move_up(&mut self)
        ensures
            final(self).roms@ == old(self).roms@,
            final(self).selected == if old(self).selected > 0 {
                old(self).selected - 1
            } else {
                old(self).selected as int
            },
    {
        if self.selected > 0 {
            self.selected = self.selected - 1;
        }
    }

    /// Moves the cursor one entry down, staying on the last.
    pub fn move_down(&mut self)
        ensures
            final(self).roms@ == old(self).roms@,
            final(self).selected == if old(self).roms.len() > 0 && old(self).selected + 1 < old(
                self,
            ).roms.len() {
                old(self).selected + 1
            } else {
                old(self).selected as int
            },
    {
        if self.roms.len() > 0 && self.selected < self.roms.len() - 1 {
            self.selected = self.selected + 1;
        }
    }

    /// The entry under the cursor, if the cursor is on one.
    pub fn selected_rom(&self) -> (r: Option<&RomEntry>)
        ensures
            r == if self.selected < self.roms.len() {
                Some(&self.roms@[self.selected as int])
            } else {
                None
            },
    {
        if self.selected < self.roms.len() {
            Some(&self.roms[self.selected])
        } else {
            None
        }
    }
}


/// What `str::to_lowercase` gives for a text (full Unicode lower-casing).
pub uninterp spec fn lowercase(s: Seq<char>) -> Seq<char>;

/// `str::to_lowercase` (std): the text lower-cased by Unicode's case mapping. Its
/// contract names the result and says nothing more of it.
#[verifier::external_body]
fn to_lowercase(s: &str) -> (r: String)
    ensures
        r@ == lowercase(s@),
{
    s.to_lowercase()
}

/// Whether `a` sorts strictly before `b`: character by character by code point, a
/// proper prefix first (the order of `String`, whose UTF-8 bytes follow code points).
pub open spec fn text_less(a: Seq<char>, b: Seq<char>) -> bool
    decreases a.len(),
{
    if a.len() == 0 {
        b.len() > 0
    } else if b.len() == 0 {
        false
    } else if a[0] != b[0] {
        a[0] < b[0]
    } else {
        text_less(a.drop_first(), b.drop_first())
    }
}

/// The index of the last '.' in a file name, or -1.
pub open spec fn last_dot(s: Seq<char>) -> int
    decreases s.len(),
{
    if s.len() == 0 {
        -1
    } else if s.last() == '.' {
        s.len() - 1
    } else {
        last_dot(s.drop_last())
    }
}

/// A character with ASCII capitals made small.
pub open spec fn ascii_lower(c: char) -> char {
    if 'A' <= c <= 'Z' {
        ((c as u32) + 32) as char
    } else {
        c
    }
}

/// Whether an extension is "nes" in any ASCII case.
pub open spec fn is_nes_extension(e: Seq<char>) -> bool {
    &&& e.len() == 3
    &&& ascii_lower(e[0]) == 'n'
    &&& ascii_lower(e[1]) == 'e'
    &&& ascii_lower(e[2]) == 's'
}

/// The name a file gets in the ROM list: the file name's stem when its extension is
/// "nes" in any ASCII case (the extension follows the last '.', unless that '.' begins
/// the name); no name for other files.
pub open spec fn rom_stem(file_name: Seq<char>) -> Option<Seq<char>> {
    let i = last_dot(file_name);
    if i > 0 && is_nes_extension(file_name.subrange(i + 1, file_name.len() as int)) {
        Some(file_name.subrange(0, i))
    } else {
        None
    }
}

/// A ROM entry as plain values: its name's text and its path.
pub open spec fn rom_view(e: RomEntry) -> (Seq<char>, PathBuf) {
    (e.name@, e.path)
}

/// A listed file as plain values: its name's text and its path.
pub open spec fn file_view(f: (String, PathBuf)) -> (Seq<char>, PathBuf) {
    (f.0@, f.1)
}

/// A keyed list with one more item, placed after every item whose key does not sort
/// after its own.
pub open spec fn key_insert<A>(s: Seq<(A, Seq<char>)>, e: (A, Seq<char>)) -> Seq<(A, Seq<char>)>
    decreases s.len(),
{
    if s.len() == 0 {
        seq![e]
    } else if text_less(e.1, s.last().1) {
        key_insert(s.drop_last(), e).push(s.last())
    } else {
        s.push(e)
    }
}

/// The items sorted by their keys (see `text_less`); items with equal keys keep their
/// order.
pub open spec fn key_sorted<A>(s: Seq<(A, Seq<char>)>) -> Seq<(A, Seq<char>)>
    decreases s.len(),
{
    if s.len() == 0 {
        s
    } else {
        key_insert(key_sorted(s.drop_last()), s.last())
    }
}

/// ROM entries paired with their sort keys, the lower-cased names.
pub open spec fn with_lowercase_keys(s: Seq<(Seq<char>, PathBuf)>) -> Seq<((Seq<char>, PathBuf), Seq<char>)> {
    s.map_values(|e: (Seq<char>, PathBuf)| (e, lowercase(e.0)))
}

/// ROM entries sorted by lower-cased name; entries with equal keys keep their order.
pub open spec fn sorted_roms(s: Seq<(Seq<char>, PathBuf)>) -> Seq<(Seq<char>, PathBuf)> {
    key_sorted(with_lowercase_keys(s)).map_values(|p: ((Seq<char>, PathBuf), Seq<char>)| p.0)
}

/// A ROM entry with its key, as plain values.
pub open spec fn keyed_view(p: (RomEntry, String)) -> ((Seq<char>, PathBuf), Seq<char>) {
    (rom_view(p.0), p.1@)
}

/// The ROM entries of a directory listing (file names with their paths), in its
/// order: the files that have a `rom_stem`, named by it.
pub open spec fn listed_roms(files: Seq<(Seq<char>, PathBuf)>) -> Seq<(Seq<char>, PathBuf)>
    decreases files.len(),
{
    if files.len() == 0 {
        Seq::empty()
    } else {
        let prev = listed_roms(files.drop_last());
        match rom_stem(files.last().0) {
            Some(stem) => prev.push((stem, files.last().1)),
            None => prev,
        }
    }
}

fn is_ascii_letter(c: char, lower: char) -> (r: bool)
    requires
        'a' <= lower <= 'z',
    ensures
        r == (ascii_lower(c) == lower),
{
    let u = c as u32;
    let l = lower as u32;
    u == l || u + 32 == l
}

/// The name a file gets in the ROM list (see `rom_stem`).
pub fn rom_name(file_name: &str) -> (r: Option<String>)
    ensures
        match r {
            Some(s) => rom_stem(file_name@) == Some(s@),
            None => rom_stem(file_name@) is None,
        },
{
    let n = file_name.unicode_len();
    let mut i = n;
    assert(file_name@.take(n as int) =~= file_name@);
    while i > 0 && file_name.get_char(i - 1) != '.'
        invariant
            n == file_name@.len(),
            i <= n,
            last_dot(file_name@) == last_dot(file_name@.take(i as int)),
        decreases i,
    {
        proof {
            assert(file_name@.take(i as int).drop_last() =~= file_name@.take(i - 1));
        }
        i = i - 1;
    }
    let dot: Option<usize> = if i > 0 {
        assert(file_name@.take(i as int).last() == '.');
        Some(i - 1)
    } else {
        assert(file_name@.take(0) =~= Seq::<char>::empty());
        None
    };
    match dot {
        Some(d) => {
            if d > 0 && n - d == 4 && is_ascii_letter(file_name.get_char(d + 1), 'n')
                && is_ascii_letter(file_name.get_char(d + 2), 'e') && is_ascii_letter(
                file_name.get_char(d + 3),
                's',
            ) {
                let stem = file_name.substring_char(0, d);
                proof {
                    let e = file_name@.subrange(d + 1, n as int);
                    assert(e[0] == file_name@[d + 1]);
                    assert(e[1] == file_name@[d + 2]);
                    assert(e[2] == file_name@[d + 3]);
                }
                Some(stem.to_owned())
            } else {
                proof {
                    if d > 0 && n - d == 4 {
                        let e = file_name@.subrange(d + 1, n as int);
                        assert(e[0] == file_name@[d + 1]);
                        assert(e[1] == file_name@[d + 2]);
                        assert(e[2] == file_name@[d + 3]);
                    }
                }
                None
            }
        },
        None => None,
    }
}

/// Whether text `a` sorts strictly before text `b` (see `text_less`).
fn name_less(a: &str, b: &str) -> (r: bool)
    ensures
        r == text_less(a@, b@),
{
    let n = a.unicode_len();
    let m = b.unicode_len();
    let mut i: usize = 0;
    assert(a@.skip(0) =~= a@);
    assert(b@.skip(0) =~= b@);
    while i < n && i < m
        invariant
            n == a@.len(),
            m == b@.len(),
            i <= n,
            i <= m,
            text_less(a@, b@) == text_less(a@.skip(i as int), b@.skip(i as int)),
        decreases n - i,
    {
        let x = a.get_char(i);
        let y = b.get_char(i);
        proof {
            assert(a@.skip(i as int)[0] == x);
            assert(b@.skip(i as int)[0] == y);
            assert(a@.skip(i as int).drop_first() =~= a@.skip(i + 1));
            assert(b@.skip(i as int).drop_first() =~= b@.skip(i + 1));
        }
        if x != y {
            return x < y;
        }
        i = i + 1;
    }
    i == n && i < m
}

proof fn lemma_key_insert_at<A>(s: Seq<(A, Seq<char>)>, e: (A, Seq<char>), j: int)
    requires
        0 <= j <= s.len(),
        forall|t: int| j <= t < s.len() ==> text_less(e.1, (#[trigger] s[t]).1),
        j > 0 ==> !text_less(e.1, s[j - 1].1),
    ensures
        key_insert(s, e) == s.insert(j, e),
    decreases s.len(),
{
    if s.len() == 0 {
        assert(s.insert(j, e) =~= seq![e]);
    } else if j == s.len() {
        assert(s.insert(j, e) =~= s.push(e));
    } else {
        assert(text_less(e.1, s[s.len() - 1].1));
        let t = s.drop_last();
        assert forall|u: int| j <= u < t.len() implies text_less(e.1, (#[trigger] t[u]).1) by {
            assert(t[u] == s[u]);
        }
        lemma_key_insert_at(t, e, j);
        assert(t.insert(j, e).push(s.last()) =~= s.insert(j, e));
    }
}

/// Sorts ROM entries by their keys (see `key_sorted`): an entry moves ahead of every
/// entry whose key sorts after its own, and entries with equal keys keep their order.
pub fn sort_by_keys(entries: Vec<(RomEntry, String)>) -> (r: Vec<RomEntry>)
    ensures
        r@.map_values(|e: RomEntry| rom_view(e)) == key_sorted(
            entries@.map_values(|p: (RomEntry, String)| keyed_view(p)),
        ).map_values(|p: ((Seq<char>, PathBuf), Seq<char>)| p.0),
{
    let ghost all = entries@.map_values(|p: (RomEntry, String)| keyed_view(p));
    let ghost total = entries.len();
    let mut rest = entries;
    let mut out: Vec<RomEntry> = Vec::new();
    let mut keys: Vec<String> = Vec::new();
    let mut k: usize = 0;
    while rest.len() > 0
        invariant
            k + rest.len() == total,
            all.len() == total,
            forall|t: int| 0 <= t < rest.len() ==> keyed_view(#[trigger] rest@[t]) == all[k + t],
            keys.len() == out.len(),
            key_sorted(all.take(k as int)) == Seq::new(
                out.len() as nat,
                |t: int| (rom_view(out@[t]), keys@[t]@),
            ),
        decreases rest.len(),
    {
        let ghost before = rest@;
        let ghost sorted_before = Seq::new(out.len() as nat, |t: int| (rom_view(out@[t]), keys@[t]@));
        let (entry, key) = rest.remove(0);
        let ghost item = (rom_view(entry), key@);
        proof {
            assert(keyed_view((entry, key)) == all[k as int]);
            assert forall|t: int| 0 <= t < rest.len() implies keyed_view(#[trigger] rest@[t]) == all[k + 1 + t] by {
                assert(rest@[t] == before[t + 1]);
            }
            assert(all.take(k + 1).drop_last() =~= all.take(k as int));
            assert(all.take(k + 1).last() == item);
        }
        let mut j = out.len();
        while j > 0 && name_less(key.as_str(), keys[j - 1].as_str())
            invariant
                j <= out.len(),
                keys.len() == out.len(),
                item.1 == key@,
                sorted_before == Seq::new(out.len() as nat, |t: int| (rom_view(out@[t]), keys@[t]@)),
                forall|t: int| j <= t < out.len() ==> text_less(item.1, (#[trigger] sorted_before[t]).1),
            decreases j,
        {
            j = j - 1;
        }
        proof {
            lemma_key_insert_at(sorted_before, item, j as int);
        }
        let ghost old_out = out@;
        let ghost old_keys = keys@;
        out.insert(j, entry);
        keys.insert(j, key);
        proof {
            let now = Seq::new(out.len() as nat, |t: int| (rom_view(out@[t]), keys@[t]@));
            assert forall|t: int| 0 <= t < now.len() implies now[t] == sorted_before.insert(j as int, item)[t] by {
                if t < j {
                    assert(keys@[t] == old_keys[t]);
                    assert(out@[t] == old_out[t]);
                } else if t > j {
                    assert(keys@[t] == old_keys[t - 1]);
                    assert(out@[t] == old_out[t - 1]);
                }
            }
            assert(now =~= sorted_before.insert(j as int, item));
        }
        k = k + 1;
    }
    proof {
        assert(all.take(k as int) =~= all);
        let final_pairs = key_sorted(all);
        assert(out@.map_values(|e: RomEntry| rom_view(e)) =~= final_pairs.map_values(
            |p: ((Seq<char>, PathBuf), Seq<char>)| p.0,
        ));
    }
    out
}

/// The ROM menu's entries for a directory listing of file names and paths: the files
/// whose extension is "nes" in any ASCII case, named by their stems and sorted by
/// lower-cased name, entries with equal keys in listing order.
pub fn rom_list(files: Vec<(String, PathBuf)>) -> (r: Vec<RomEntry>)
    ensures
        r@.map_values(|e: RomEntry| rom_view(e)) == sorted_roms(
            listed_roms(files@.map_values(|f: (String, PathBuf)| file_view(f))),
        ),
{
    let ghost all = files@.map_values(|f: (String, PathBuf)| file_view(f));
    let ghost total = files.len();
    let mut rest = files;
    let mut keyed: Vec<(RomEntry, String)> = Vec::new();
    let mut k: usize = 0;
    while rest.len() > 0
        invariant
            k + rest.len() == total,
            all.len() == total,
            forall|t: int| 0 <= t < rest.len() ==> file_view(#[trigger] rest@[t]) == all[k + t],
            keyed@.map_values(|p: (RomEntry, String)| keyed_view(p)) == with_lowercase_keys(
                listed_roms(all.take(k as int)),
            ),
        decreases rest.len(),
    {
        let ghost before = rest@;
        let ghost prev_list = listed_roms(all.take(k as int));
        let ghost prev_keyed = keyed@;
        let (file_name, path) = rest.remove(0);
        proof {
            assert(file_view((file_name, path)) == all[k as int]);
            assert forall|t: int| 0 <= t < rest.len() implies file_view(#[trigger] rest@[t]) == all[k + 1 + t] by {
                assert(rest@[t] == before[t + 1]);
            }
            assert(all.take(k + 1).drop_last() =~= all.take(k as int));
        }
        match rom_name(file_name.as_str()) {
            Some(name) => {
                let key = to_lowercase(name.as_str());
                let ghost entry = (name@, path);
                keyed.push((RomEntry { name, path }, key));
                proof {
                    assert(listed_roms(all.take(k + 1)) == prev_list.push(entry));
                    let m = keyed@.map_values(|p: (RomEntry, String)| keyed_view(p));
                    let w = with_lowercase_keys(prev_list.push(entry));
                    assert(prev_keyed.map_values(|p: (RomEntry, String)| keyed_view(p)).len() == prev_keyed.len());
                    assert(with_lowercase_keys(prev_list).len() == prev_list.len());
                    assert(keyed@.len() == prev_keyed.len() + 1);
                    assert(m.len() == w.len());
                    assert forall|t: int| 0 <= t < m.len() implies m[t] == w[t] by {
                        if t < prev_keyed.len() {
                            assert(keyed@[t] == prev_keyed[t]);
                            assert(prev_keyed.map_values(|p: (RomEntry, String)| keyed_view(p))[t] == with_lowercase_keys(prev_list)[t]);
                        }
                    }
                    assert(keyed@.map_values(|p: (RomEntry, String)| keyed_view(p)) =~= with_lowercase_keys(
                        prev_list.push(entry),
                    ));
                }
            },
            None => {
                proof {
                    assert(listed_roms(all.take(k + 1)) == prev_list);
                }
            },
        }
        k = k + 1;
    }
    proof {
        assert(all.take(k as int) =~= all);
    }
    sort_by_keys(keyed)
}

proof fn lemma_text_less_irreflexive(a: Seq<char>)
    ensures
        !text_less(a, a),
    decreases a.len(),
{
    if a.len() > 0 {
        lemma_text_less_irreflexive(a.drop_first());
    }
}

proof fn lemma_text_less_asymmetric(a: Seq<char>, b: Seq<char>)
    ensures
        text_less(a, b) ==> !text_less(b, a),
    decreases a.len(),
{
    if a.len() > 0 && b.len() > 0 && a[0] == b[0] {
        lemma_text_less_asymmetric(a.drop_first(), b.drop_first());
    }
}

proof fn lemma_text_less_transitive(a: Seq<char>, b: Seq<char>, c: Seq<char>)
    requires
        text_less(a, b),
        text_less(b, c),
    ensures
        text_less(a, c),
    decreases a.len(),
{
    if a.len() > 0 && a[0] == b[0] && b[0] == c[0] {
        lemma_text_less_transitive(a.drop_first(), b.drop_first(), c.drop_first());
    }
}

proof fn lemma_text_less_total(a: Seq<char>, b: Seq<char>)
    ensures
        text_less(a, b) || text_less(b, a) || a == b,
    decreases a.len(),
{
    if a.len() > 0 && b.len() > 0 && a[0] == b[0] {
        lemma_text_less_total(a.drop_first(), b.drop_first());
        if a.drop_first() == b.drop_first() {
            assert(a =~= b) by {
                assert forall|i: int| 0 <= i < a.len() implies a[i] == b[i] by {
                    if i > 0 {
                        assert(a[i] == a.drop_first()[i - 1]);
                        assert(b[i] == b.drop_first()[i - 1]);
                    }
                }
            }
        }
    } else if a.len() == 0 && b.len() == 0 {
        assert(a =~= b);
    }
}

/// Where `key_insert` places an item.
pub open spec fn key_position<A>(s: Seq<(A, Seq<char>)>, e: (A, Seq<char>)) -> int
    decreases s.len(),
{
    if s.len() == 0 {
        0
    } else if text_less(e.1, s.last().1) {
        key_position(s.drop_last(), e)
    } else {
        s.len() as int
    }
}

proof fn lemma_key_position<A>(s: Seq<(A, Seq<char>)>, e: (A, Seq<char>))
    ensures
        0 <= key_position(s, e) <= s.len(),
        key_insert(s, e) == s.insert(key_position(s, e), e),
        forall|t: int| key_position(s, e) <= t < s.len() ==> text_less(e.1, (#[trigger] s[t]).1),
        key_position(s, e) > 0 ==> !text_less(e.1, s[key_position(s, e) - 1].1),
    decreases s.len(),
{
    if s.len() > 0 && text_less(e.1, s.last().1) {
        let t = s.drop_last();
        lemma_key_position(t, e);
        let p = key_position(t, e);
        assert(t.insert(p, e).push(s.last()) =~= s.insert(p, e));
        assert forall|u: int| p <= u < s.len() implies text_less(e.1, (#[trigger] s[u]).1) by {
            if u < t.len() {
                assert(s[u] == t[u]);
            }
        }
        if p > 0 {
            assert(s[p - 1] == t[p - 1]);
        }
    } else if s.len() > 0 {
        assert(s.insert(s.len() as int, e) =~= s.push(e));
    } else {
        assert(s.insert(0, e) =~= seq![e]);
    }
}

/// Whether no item's key sorts before the key of an item ahead of it.
pub open spec fn keys_sorted<A>(s: Seq<(A, Seq<char>)>) -> bool {
    forall|i: int, j: int| 0 <= i < j < s.len() ==> !text_less((#[trigger] s[j]).1, (#[trigger] s[i]).1)
}

proof fn lemma_key_insert_sorted<A>(s: Seq<(A, Seq<char>)>, e: (A, Seq<char>))
    requires
        keys_sorted(s),
    ensures
        keys_sorted(key_insert(s, e)),
        key_insert(s, e).to_multiset() == s.to_multiset().insert(e),
{
    broadcast use vstd::seq_lib::group_to_multiset_ensures;
    lemma_key_position(s, e);
    let p = key_position(s, e);
    let r = s.insert(p, e);
    assert forall|i: int, j: int| 0 <= i < j < r.len() implies !text_less((#[trigger] r[j]).1, (#[trigger] r[i]).1) by {
        if j == p {
            assert(r[i] == s[i]);
            if text_less(e.1, s[i].1) {
                let q = s[p - 1];
                lemma_text_less_total(e.1, q.1);
                if i < p - 1 {
                    assert(!text_less(s[p - 1].1, s[i].1));
                    if text_less(q.1, e.1) {
                        lemma_text_less_transitive(q.1, e.1, s[i].1);
                    }
                }
            }
        } else if i == p {
            assert(r[j] == s[j - 1]);
            lemma_text_less_asymmetric(e.1, s[j - 1].1);
        } else {
            let si = if i < p { i } else { i - 1 };
            let sj = if j < p { j } else { j - 1 };
            assert(r[i] == s[si]);
            assert(r[j] == s[sj]);
            if si == sj {
                lemma_text_less_irreflexive(s[si].1);
            }
        }
    }
}

/// Sorting by keys gives a list whose keys never decrease and which holds exactly the
/// items it was given.
pub proof fn lemma_key_sorted<A>(s: Seq<(A, Seq<char>)>)
    ensures
        keys_sorted(key_sorted(s)),
        key_sorted(s).to_multiset() == s.to_multiset(),
    decreases s.len(),
{
    broadcast use vstd::seq_lib::group_to_multiset_ensures;
    if s.len() > 0 {
        lemma_key_sorted(s.drop_last());
        lemma_key_insert_sorted(key_sorted(s.drop_last()), s.last());
        assert(s.drop_last().push(s.last()) =~= s);
    }
}

/// The ROM list is sorted: no entry's lower-cased name sorts before that of an entry
/// ahead of it, and, paired with their keys, it holds exactly the listed entries.
pub proof fn lemma_sorted_roms(s: Seq<(Seq<char>, PathBuf)>)
    ensures
        forall|i: int, j: int|
            0 <= i < j < sorted_roms(s).len() ==> !text_less(
                lowercase((#[trigger] sorted_roms(s)[j]).0),
                lowercase((#[trigger] sorted_roms(s)[i]).0),
            ),
        key_sorted(with_lowercase_keys(s)).to_multiset() == with_lowercase_keys(s).to_multiset(),
{
    broadcast use vstd::seq_lib::group_to_multiset_ensures;
    let k = with_lowercase_keys(s);
    let r = key_sorted(k);
    lemma_key_sorted(k);
    assert forall|x: ((Seq<char>, PathBuf), Seq<char>)| r.contains(x) implies x.1 == lowercase(x.0.0) by {
        assert(r.to_multiset().count(x) > 0);
        assert(k.contains(x));
        let t = choose|t: int| 0 <= t < k.len() && k[t] == x;
        assert(k[t] == (s[t], lowercase(s[t].0)));
    }
    assert forall|i: int, j: int| 0 <= i < j < sorted_roms(s).len() implies !text_less(
        lowercase((#[trigger] sorted_roms(s)[j]).0),
        lowercase((#[trigger] sorted_roms(s)[i]).0),
    ) by {
        assert(r.contains(r[i]));
        assert(r.contains(r[j]));
        assert(sorted_roms(s)[i] == r[i].0);
        assert(sorted_roms(s)[j] == r[j].0);
    }
}

/// Menu rows shown at once.
pub const VISIBLE_ROWS: usize = 18;

/// The longest name shown, in UTF-8 bytes.
pub const MAX_NAME_BYTES: usize = 28;

/// A text the menu screen shows: the text, where its top-left corner goes, its colour.
pub struct MenuText {
    pub text: String,
    pub x: usize,
    pub y: usize,
    pub color: [u8; 3],
}

/// A menu text as plain values.
pub open spec fn menu_text_view(t: MenuText) -> (Seq<char>, usize, usize, Seq<u8>) {
    (t.text@, t.x, t.y, t.color@)
}

/// The colour of the title and of the selected row.
pub open spec fn white_color() -> Seq<u8> {
    seq![236u8, 238u8, 236u8]
}

/// The colour of the other rows and of the empty-list messages.
pub open spec fn grey_color() -> Seq<u8> {
    seq![152u8, 150u8, 152u8]
}

/// The colour of the key help.
pub open spec fn blue_color() -> Seq<u8> {
    seq![76u8, 154u8, 236u8]
}

/// Bytes a character takes in UTF-8.
pub open spec fn utf8_width(c: char) -> nat {
    let u = c as u32;
    if u < 0x80 {
        1
    } else if u < 0x800 {
        2
    } else if u < 0x10000 {
        3
    } else {
        4
    }
}

/// Bytes a text takes in UTF-8.
pub open spec fn utf8_len(s: Seq<char>) -> nat
    decreases s.len(),
{
    if s.len() == 0 {
        0
    } else {
        utf8_len(s.drop_last()) + utf8_width(s.last())
    }
}

/// How many leading characters of `s` fit in `budget` bytes.
pub open spec fn chars_within(s: Seq<char>, budget: int) -> nat
    decreases s.len(),
{
    if s.len() == 0 || utf8_width(s[0]) > budget {
        0
    } else {
        1 + chars_within(s.drop_first(), budget - utf8_width(s[0]))
    }
}

/// Whether a name can be shown: it is short enough, or its first `MAX_NAME_BYTES`
/// bytes end on a character boundary.
pub open spec fn name_showable(name: Seq<char>) -> bool {
    utf8_len(name) > MAX_NAME_BYTES ==> utf8_len(name.take(chars_within(name, MAX_NAME_BYTES as int) as int))
        == MAX_NAME_BYTES
}

/// A name as the menu shows it: cut to its first `MAX_NAME_BYTES` bytes when longer.
pub open spec fn shown_name(name: Seq<char>) -> Seq<char> {
    if utf8_len(name) > MAX_NAME_BYTES {
        name.take(chars_within(name, MAX_NAME_BYTES as int) as int)
    } else {
        name
    }
}

/// The first row shown: the list scrolls so that the selected row is on screen.
pub open spec fn visible_start(selected: int) -> int {
    if selected >= VISIBLE_ROWS {
        selected - VISIBLE_ROWS + 1
    } else {
        0
    }
}

/// How many rows are shown.
pub open spec fn visible_count(len: int, selected: int) -> int {
    let start = visible_start(selected);
    if start >= len {
        0
    } else if len - start < VISIBLE_ROWS {
        len - start
    } else {
        VISIBLE_ROWS as int
    }
}

/// Row `vi` of the screen, showing entry `i`: "> " before the selected entry (in
/// white), two spaces before the others (in grey), ten pixels per row from y = 36.
pub open spec fn menu_row(names: Seq<Seq<char>>, selected: int, i: int, vi: int) -> (Seq<char>, usize, usize, Seq<u8>) {
    (
        (if i == selected { "> "@ } else { "  "@ }) + shown_name(names[i]),
        16usize,
        (36 + vi * 10) as usize,
        if i == selected { white_color() } else { grey_color() },
    )
}

/// Everything the menu screen writes, in drawing order: the title; the rows of the
/// visible window, or three lines explaining that there are no ROMs; the key help.
pub open spec fn menu_texts(names: Seq<Seq<char>>, selected: int) -> Seq<(Seq<char>, usize, usize, Seq<u8>)> {
    let body = if names.len() == 0 {
        seq![
            ("NO ROMS FOUND"@, 64usize, 100usize, grey_color()),
            ("PUT .NES FILES IN"@, 48usize, 120usize, grey_color()),
            ("THE ROMS DIRECTORY"@, 44usize, 132usize, grey_color()),
        ]
    } else {
        Seq::new(
            visible_count(names.len() as int, selected) as nat,
            |vi: int| menu_row(names, selected, visible_start(selected) + vi, vi),
        )
    };
    seq![("RFC - NES EMULATOR"@, 40usize, 16usize, white_color())] + body + seq![
        ("UP/DOWN:SELECT ENTER:PLAY"@, 16usize, 226usize, blue_color()),
    ]
}

fn char_width(c: char) -> (r: usize)
    ensures
        r == utf8_width(c),
{
    let u = c as u32;
    if u < 0x80 {
        1
    } else if u < 0x800 {
        2
    } else if u < 0x10000 {
        3
    } else {
        4
    }
}

proof fn lemma_utf8_len_take(s: Seq<char>, k: int)
    requires
        0 <= k < s.len(),
    ensures
        utf8_len(s.take(k + 1)) == utf8_len(s.take(k)) + utf8_width(s[k]),
{
    assert(s.take(k + 1).drop_last() =~= s.take(k));
}

proof fn lemma_chars_within_step(s: Seq<char>, k: int, budget: int)
    requires
        0 <= k <= s.len(),
        forall|t: int| 0 <= t < k ==> utf8_width(#[trigger] s[t]) <= budget - (utf8_len(s.take(t))),
    ensures
        chars_within(s, budget) == k + chars_within(s.skip(k), budget - utf8_len(s.take(k))),
    decreases k,
{
    if k > 0 {
        assert(s.take(0) =~= Seq::<char>::empty());
        let t = s.drop_first();
        assert forall|u: int| 0 <= u < k - 1 implies utf8_width(#[trigger] t[u]) <= (budget - utf8_width(s[0])) - utf8_len(t.take(u)) by {
            lemma_take_first(s, u);
            assert(t[u] == s[u + 1]);
        }
        lemma_chars_within_step(t, k - 1, budget - utf8_width(s[0]));
        lemma_take_first(s, k - 1);
        assert(t.skip(k - 1) =~= s.skip(k));
    } else {
        assert(s.skip(0) =~= s);
        assert(s.take(0) =~= Seq::<char>::empty());
    }
}

proof fn lemma_take_first(s: Seq<char>, u: int)
    requires
        0 <= u < s.len(),
    ensures
        utf8_len(s.take(u + 1)) == utf8_width(s[0]) + utf8_len(s.drop_first().take(u)),
    decreases u,
{
    if u == 0 {
        assert(s.take(1).drop_last() =~= Seq::<char>::empty());
        assert(s.drop_first().take(0) =~= Seq::<char>::empty());
    } else {
        lemma_take_first(s, u - 1);
        lemma_utf8_len_take(s, u);
        lemma_utf8_len_take(s.drop_first(), u - 1);
        assert(s.drop_first()[u - 1] == s[u]);
    }
}

/// The name as the menu shows it (see `shown_name`).
fn show_name(name: &str) -> (r: String)
    requires
        name_showable(name@),
    ensures
        r@ == shown_name(name@),
{
    let n = name.unicode_len();
    let mut bytes: usize = 0;
    let mut i: usize = 0;
    let mut cut: usize = 0;
    let mut within = true;
    while i < n
        invariant
            n == name@.len(),
            i <= n,
            within ==> bytes == utf8_len(name@.take(i as int)) && cut == i && bytes <= MAX_NAME_BYTES,
            within ==> forall|t: int| 0 <= t < i ==> utf8_width(#[trigger] name@[t]) <= MAX_NAME_BYTES - utf8_len(name@.take(t)),
            !within ==> cut < i && chars_within(name@, MAX_NAME_BYTES as int) == cut,
            !within ==> utf8_len(name@.take(i as int)) > MAX_NAME_BYTES,
        decreases n - i,
    {
        let w = char_width(name.get_char(i));
        proof {
            lemma_utf8_len_take(name@, i as int);
        }
        if within {
            if bytes + w > MAX_NAME_BYTES {
                within = false;
                proof {
                    lemma_chars_within_step(name@, i as int, MAX_NAME_BYTES as int);
                    assert(name@.skip(i as int)[0] == name@[i as int]);
                }
            } else {
                bytes = bytes + w;
                cut = i + 1;
            }
        }
        i = i + 1;
    }
    proof {
        assert(name@.take(n as int) =~= name@);
        if within {
            lemma_chars_within_step(name@, n as int, MAX_NAME_BYTES as int);
            assert(name@.skip(n as int) =~= Seq::<char>::empty());
        }
    }
    if !within {
        name.substring_char(0, cut).to_owned()
    } else {
        name.to_owned()
    }
}

impl Menu {
    /// The texts the menu screen shows (see `menu_texts`); names of the visible rows
    /// must be showable.
    pub fn render_texts(&self) -> (r: Vec<MenuText>)
        requires
            forall|i: int|
                visible_start(self.selected as int) <= i < visible_start(self.selected as int)
                    + visible_count(self.roms.len() as int, self.selected as int) ==> name_showable(
                    #[trigger] self.roms@[i].name@,
                ),
        ensures
            r@.map_values(|t: MenuText| menu_text_view(t)) == menu_texts(
                self.roms@.map_values(|e: RomEntry| e.name@),
                self.selected as int,
            ),
    {
        let ghost names = self.roms@.map_values(|e: RomEntry| e.name@);
        let mut out: Vec<MenuText> = Vec::new();
        let white: [u8; 3] = [236, 238, 236];
        let grey: [u8; 3] = [152, 150, 152];
        let blue: [u8; 3] = [76, 154, 236];
        assert(white@ =~= white_color());
        assert(grey@ =~= grey_color());
        assert(blue@ =~= blue_color());
        out.push(MenuText { text: "RFC - NES EMULATOR".to_owned(), x: 40, y: 16, color: white });
        if self.roms.len() == 0 {
            out.push(MenuText { text: "NO ROMS FOUND".to_owned(), x: 64, y: 100, color: grey });
            out.push(MenuText { text: "PUT .NES FILES IN".to_owned(), x: 48, y: 120, color: grey });
            out.push(MenuText { text: "THE ROMS DIRECTORY".to_owned(), x: 44, y: 132, color: grey });
            proof {
                reveal_strlit("RFC - NES EMULATOR");
                assert(names.len() == 0);
                assert(out@.map_values(|t: MenuText| menu_text_view(t)) =~= menu_texts(
                    names,
                    self.selected as int,
                ).drop_last());
            }
        } else {
            let start = if self.selected >= VISIBLE_ROWS {
                self.selected - VISIBLE_ROWS + 1
            } else {
                0
            };
            let ghost count = visible_count(self.roms.len() as int, self.selected as int);
            let mut vi: usize = 0;
            while vi < VISIBLE_ROWS
                invariant_except_break
                    start == visible_start(self.selected as int),
                    names == self.roms@.map_values(|e: RomEntry| e.name@),
                    names.len() > 0,
                    count == visible_count(self.roms.len() as int, self.selected as int),
                    vi <= count,
                    white@ == white_color(),
                    grey@ == grey_color(),
                    out.len() == 1 + vi,
                    out@[0].text@ == "RFC - NES EMULATOR"@ && out@[0].x == 40 && out@[0].y == 16 && out@[0].color@ == white_color(),
                    forall|t: int| 0 <= t < vi ==> menu_text_view(#[trigger] out@[1 + t]) == menu_row(names, self.selected as int, start + t, t),
                    forall|i: int|
                        start <= i < start + count ==> name_showable(#[trigger] self.roms@[i].name@),
                ensures
                    out.len() == 1 + count,
                    out@[0].text@ == "RFC - NES EMULATOR"@ && out@[0].x == 40 && out@[0].y == 16 && out@[0].color@ == white_color(),
                    forall|t: int| 0 <= t < count ==> menu_text_view(#[trigger] out@[1 + t]) == menu_row(names, self.selected as int, start + t, t),
                decreases VISIBLE_ROWS - vi,
            {
                let i = start + vi;
                if i >= self.roms.len() {
                    break;
                }
                let selected = i == self.selected;
                let shown = show_name(self.roms[i].name.as_str());
                let mut text = if selected { "> ".to_owned() } else { "  ".to_owned() };
                text.append(shown.as_str());
                let color = if selected { white } else { grey };
                let ghost before = out@;
                out.push(MenuText { text, x: 16, y: 36 + vi * 10, color });
                proof {
                    assert(names[i as int] == self.roms@[i as int].name@);
                    assert forall|t: int| 0 <= t < vi + 1 implies menu_text_view(#[trigger] out@[1 + t]) == menu_row(names, self.selected as int, start + t, t) by {
                        if t < vi {
                            assert(out@[1 + t] == before[1 + t]);
                        }
                    }
                }
                vi = vi + 1;
            }
            proof {
                let v = out@.map_values(|t: MenuText| menu_text_view(t));
                let m = menu_texts(names, self.selected as int).drop_last();
                assert(v.len() == m.len());
                assert forall|k: int| 0 <= k < v.len() implies v[k] == m[k] by {
                    if k > 0 {
                        assert(menu_text_view(out@[1 + (k - 1)]) == menu_row(names, self.selected as int, start + (k - 1), k - 1));
                    }
                }
                assert(v =~= m);
            }
        }
        let ghost before_footer = out@;
        out.push(MenuText { text: "UP/DOWN:SELECT ENTER:PLAY".to_owned(), x: 16, y: 226, color: blue });
        proof {
            let m = menu_texts(names, self.selected as int);
            assert(out@.map_values(|t: MenuText| menu_text_view(t)) =~= before_footer.map_values(
                |t: MenuText| menu_text_view(t),
            ).push(m.last()));
            assert(m.drop_last().push(m.last()) =~= m);
        }
        out
    }
}

} // verus!
