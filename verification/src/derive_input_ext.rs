//! Attribute lookups on a declaration, and merging entries into its
//! `derive` attribute.

use vstd::prelude::*;

use crate::ast::{
    Attribute, AttributeView, Meta, MetaView, Path, Payload, PayloadView,
    lemma_deep_seq, lemma_deep_seq_is_deep_view, DeriveInput, DeriveInputView,
};
use crate::error::{Error, ErrorView};
use crate::util;
use crate::util::{
    attr_params, has_namespace, has_tag, lemma_take_step, namespace_params, path_display,
    path_eq, tag_params,
};
use vstd::pervasive::unreached;

verus! {

/// The reserved head path of a derive attribute: the single segment
/// `derive`.
pub open spec fn derive_path() -> Seq<Seq<char>> {
    seq!["derive"@]
}

/// Whether every entry of the sequence is a bare path entry.
pub open spec fn all_path_entries(ms: Seq<MetaView>) -> bool {
    forall|j: int| 0 <= j < ms.len() ==> ms[j] is Path
}

/// Whether an attribute is a well-formed derive list: head path `derive`
/// and a parameter list made of bare path entries.  Only such an attribute
/// takes part in a merge; any other `derive`-named attribute is skipped.
pub open spec fn is_derive_list_attr(a: AttributeView) -> bool {
    &&& a.path == derive_path()
    &&& a.payload matches PayloadView::List(ms) && all_path_entries(ms)
}

/// The index of the first well-formed derive attribute, or `-1` when none
/// exists.
pub open spec fn find_derive(attrs: Seq<AttributeView>) -> int
    decreases attrs.len(),
{
    if attrs.len() == 0 {
        -1
    } else if is_derive_list_attr(attrs[0]) {
        0
    } else if find_derive(attrs.drop_first()) < 0 {
        -1
    } else {
        find_derive(attrs.drop_first()) + 1
    }
}

/// `find_derive` returns `-1` exactly when no well-formed derive attribute
/// exists, and otherwise the first index of one.
pub proof fn lemma_find_derive_char(attrs: Seq<AttributeView>)
    ensures
        find_derive(attrs) == -1 ==> forall|k: int| #![auto] 0 <= k < attrs.len()
            ==> !is_derive_list_attr(attrs[k]),
        find_derive(attrs) != -1 ==> 0 <= find_derive(attrs) < attrs.len()
            && is_derive_list_attr(attrs[find_derive(attrs)])
            && (forall|k: int| #![auto] 0 <= k < find_derive(attrs)
                ==> !is_derive_list_attr(attrs[k])),
    decreases attrs.len(),
{
    if attrs.len() > 0 && !is_derive_list_attr(attrs[0]) {
        lemma_find_derive_char(attrs.drop_first());
        assert(forall|k: int| #![auto] 1 <= k < attrs.len()
            ==> attrs[k] == attrs.drop_first()[k - 1]);
    }
}

/// Whether the derive entries contain a bare path entry equal to `p`.
pub open spec fn derives_contain(ms: Seq<MetaView>, p: Seq<Seq<char>>) -> bool {
    exists|j: int| 0 <= j < ms.len() && ms[j] == MetaView::Path(p)
}

/// Bare path entries for the given paths, in order.
pub open spec fn path_entries(ps: Seq<Seq<Seq<char>>>) -> Seq<MetaView> {
    Seq::new(ps.len(), |i: int| MetaView::Path(ps[i]))
}

/// The rendered text of each path of `news` already present among the
/// existing derive entries, in `news` order.
pub open spec fn overlap_names(
    news: Seq<Seq<Seq<char>>>,
    existing: Seq<MetaView>,
) -> Seq<Seq<char>>
    decreases news.len(),
{
    if news.len() == 0 {
        Seq::empty()
    } else {
        overlap_names(news.drop_last(), existing) + (if derives_contain(existing, news.last()) {
            seq![path_display(news.last())]
        } else {
            Seq::empty()
        })
    }
}

/// The overlap list is empty exactly when the new entries are disjoint from
/// the existing ones.  A merge therefore succeeds on disjoint entries and
/// fails as soon as one new entry is already present.
pub proof fn lemma_overlap_names_disjoint(news: Seq<Seq<Seq<char>>>, existing: Seq<MetaView>)
    ensures
        overlap_names(news, existing).len() == 0 <==> (forall|k: int| #![auto] 0 <= k < news.len()
            ==> !derives_contain(existing, news[k])),
    decreases news.len(),
{
    if news.len() > 0 {
        lemma_overlap_names_disjoint(news.drop_last(), existing);
        assert(forall|k: int| #![auto] 0 <= k < news.len() - 1 ==> news.drop_last()[k]
            == news[k]);
        assert(news.last() == news[news.len() - 1]);
    }
}

/// Whether the entries are pairwise distinct under structural equality.
pub open spec fn distinct_entries(ms: Seq<MetaView>) -> bool {
    forall|i: int, j: int| 0 <= i < j < ms.len() ==> ms[i] != ms[j]
}

/// Whether the paths are pairwise distinct.
pub open spec fn distinct_paths(ps: Seq<Seq<Seq<char>>>) -> bool {
    forall|i: int, j: int| 0 <= i < j < ps.len() ==> ps[i] != ps[j]
}

/// A merge that succeeds never produces duplicate entries: when the
/// existing derive entries are pairwise distinct, the appended paths are
/// pairwise distinct, and none of them is already present, the merged entry
/// list is pairwise distinct under structural equality.
pub proof fn lemma_merge_keeps_entries_distinct(
    existing: Seq<MetaView>,
    news: Seq<Seq<Seq<char>>>,
)
    requires
        distinct_entries(existing),
        distinct_paths(news),
        overlap_names(news, existing).len() == 0,
    ensures
        distinct_entries(existing + path_entries(news)),
{
    lemma_overlap_names_disjoint(news, existing);
    let merged = existing + path_entries(news);
    assert forall|i: int, j: int| 0 <= i < j < merged.len() implies merged[i] != merged[j] by {
        if i < existing.len() && j >= existing.len() {
            let k = j - existing.len();
            assert(merged[j] == MetaView::Path(news[k]));
            if merged[i] == merged[j] {
                assert(existing[i] == MetaView::Path(news[k]));
                assert(derives_contain(existing, news[k]));
            }
        } else if i >= existing.len() {
            let ki = i - existing.len();
            let kj = j - existing.len();
            assert(merged[i] == MetaView::Path(news[ki]));
            assert(merged[j] == MetaView::Path(news[kj]));
        }
    }
}

/// The view of the attribute list after a derive merge: when no well-formed
/// derive attribute exists, a new one holding exactly the new entries is
/// appended; otherwise the first one has the new entries appended after the
/// existing ones, in place.
pub open spec fn merged_attrs(
    attrs: Seq<AttributeView>,
    news: Seq<Seq<Seq<char>>>,
) -> Seq<AttributeView> {
    let idx = find_derive(attrs);
    if idx < 0 {
        attrs.push(
            AttributeView { path: derive_path(), payload: PayloadView::List(path_entries(news)) },
        )
    } else {
        attrs.update(
            idx,
            AttributeView {
                path: attrs[idx].path,
                payload: PayloadView::List(attr_params(attrs[idx]) + path_entries(news)),
            },
        )
    }
}

/// Returns whether the attribute is a well-formed derive list.
#[verifier::loop_isolation(false)]
fn is_derive_attr(a: &Attribute) -> (r: bool)
    ensures
        r == is_derive_list_attr(a@),
{
    if !(a.path.segments.len() == 1 && a.path.segments[0] == "derive".to_owned()) {
        proof {
            assert(a@.path.len() == a.path.segments@.len());
            assert(derive_path().len() == 1);
            assert(derive_path()[0] == "derive"@);
            if a@.path == derive_path() {
                assert(a.path.segments@[0]@ == a@.path[0]);
            }
        }
        return false;
    }
    proof {
        assert(a@.path =~= derive_path());
    }
    match &a.payload {
        Payload::List(ms) => {
            proof {
                lemma_deep_seq_is_deep_view(*ms);
            }
            let m = ms.len();
            let mut j: usize = 0;
            while j < m
                invariant
                    j <= m,
                    m == ms@.len(),
                    forall|l: int| #![auto] 0 <= l < j ==> ms.deep_view()[l] is Path,
                decreases m - j,
            {
                match &ms[j] {
                    Meta::Path(_) => {},
                    _ => {
                        proof {
                            assert(!(ms.deep_view()[j as int] is Path));
                            assert(!all_path_entries(ms.deep_view()));
                        }
                        return false;
                    },
                }
                j += 1;
            }
            true
        },
        _ => false,
    }
}

/// Returns whether the derive entries contain a bare path entry equal to
/// `p`.
#[verifier::loop_isolation(false)]
fn derive_list_contains(ms: &Vec<Meta>, p: &Path) -> (r: bool)
    ensures
        r == derives_contain(ms.deep_view(), p@),
{
    let n = ms.len();
    let mut j: usize = 0;
    while j < n
        invariant
            j <= n,
            n == ms@.len(),
            forall|l: int| #![auto] 0 <= l < j ==> ms.deep_view()[l] != MetaView::Path(p@),
        decreases n - j,
    {
        if let Meta::Path(q) = &ms[j] {
            if path_eq(q, p) {
                proof {
                    assert(ms.deep_view()[j as int] == MetaView::Path(p@));
                }
                return true;
            }
        }
        j += 1;
    }
    false
}

impl DeriveInput {
    /// Returns whether this declaration carries a `#[namespace ..]`
    /// attribute, whatever its payload.
    pub fn contains_namespace(&self, namespace: &Path) -> (r: bool)
        ensures
            r == has_namespace(self@.attrs, namespace@),
    {
        util::contains_namespace(&self.attrs, namespace)
    }

    /// Returns the single parameter from `#[namespace(parameter)]` on this
    /// declaration, as [`util::namespace_parameter`] does.
    pub fn namespace_parameter(&self, namespace: &Path) -> (r: Result<Option<Meta>, Error>)
        ensures
            ({
                let ps = namespace_params(self@.attrs, namespace@);
                match r {
                    Ok(o) => (ps.len() == 0 && o is None) || (ps.len() == 1
                        && (o matches Some(m) && m@ == ps[0])),
                    Err(e) => ps.len() >= 2 && e@ == ErrorView::NamespaceArity(namespace@),
                }
            }),
    {
        util::namespace_parameter(&self.attrs, namespace)
    }

    /// Returns the parameters from `#[namespace(param1, param2, ..)]` on
    /// this declaration, flattened in order.
    pub fn namespace_parameters(&self, namespace: &Path) -> (out: Vec<Meta>)
        ensures
            out.deep_view() == namespace_params(self@.attrs, namespace@),
    {
        util::namespace_parameters(&self.attrs, namespace)
    }

    /// Returns whether this declaration carries `#[namespace(tag)]` or
    /// `#[namespace(tag(..))]`.
    pub fn contains_tag(&self, namespace: &Path, tag: &Path) -> (r: bool)
        ensures
            r == has_tag(self@.attrs, namespace@, tag@),
    {
        util::contains_tag(&self.attrs, namespace, tag)
    }

    /// Returns the single parameter from `#[namespace(tag(parameter))]` on
    /// this declaration, as [`util::tag_parameter`] does.
    pub fn tag_parameter(&self, namespace: &Path, tag: &Path) -> (r: Result<Option<Meta>, Error>)
        ensures
            ({
                let ps = tag_params(self@.attrs, namespace@, tag@);
                match r {
                    Ok(o) => (ps.len() == 0 && o is None) || (ps.len() == 1
                        && (o matches Some(m) && m@ == ps[0])),
                    Err(e) => ps.len() >= 2 && e@ == ErrorView::TagArity(namespace@, tag@),
                }
            }),
    {
        util::tag_parameter(&self.attrs, namespace, tag)
    }

    /// Returns the parameters from `#[namespace(tag(param1, param2, ..))]`
    /// on this declaration, flattened in order.
    pub fn tag_parameters(&self, namespace: &Path, tag: &Path) -> (out: Vec<Meta>)
        ensures
            out.deep_view() == tag_params(self@.attrs, namespace@, tag@),
    {
        util::tag_parameters(&self.attrs, namespace, tag)
    }

    /// Appends `derives` to this declaration's derive list.
    ///
    /// When no well-formed derive attribute exists, a new `#[derive(..)]`
    /// attribute holding exactly the new entries is appended after the
    /// existing attributes.  When one exists and none of the new entries is
    /// already present, the new entries are appended after the existing
    /// ones, in order and in place.  When any new entry is already present,
    /// the declaration is left unchanged and the call fails with
    /// [`Error::DeriveConflict`] listing every overlapping entry, rendered
    /// as path text, in append order.
    #[verifier::loop_isolation(false)]
    pub fn append_derives(&mut self, derives: Vec<Path>) -> (r: Result<(), Error>)
        ensures
            ({
                let a = old(self)@.attrs;
                let news = derives.deep_view();
                let idx = find_derive(a);
                if idx < 0 {
                    r is Ok && final(self)@ == (DeriveInputView {
                        attrs: merged_attrs(a, news),
                        ..old(self)@
                    })
                } else {
                    let ov = overlap_names(news, attr_params(a[idx]));
                    if ov.len() == 0 {
                        r is Ok && final(self)@ == (DeriveInputView {
                            attrs: merged_attrs(a, news),
                            ..old(self)@
                        })
                    } else {
                        (r matches Err(e) && e@ == ErrorView::DeriveConflict(ov)) && final(self)@
                            == old(self)@
                    }
                }
            }),
    {
        proof {
            lemma_find_derive_char(self@.attrs);
        }
        let ghost a0 = self@.attrs;
        let ghost news = derives.deep_view();
        let n = self.attrs.len();
        let mut idx: usize = 0;
        let mut found = false;
        while !found && idx < n
            invariant
                idx <= n,
                n == self.attrs@.len(),
                forall|k: int| #![auto] 0 <= k < idx ==> !is_derive_list_attr(
                    self.attrs.deep_view()[k],
                ),
                found ==> idx < n && is_derive_list_attr(self.attrs.deep_view()[idx as int]),
            decreases n - idx, (if found { 0int } else { 1int }),
        {
            if is_derive_attr(&self.attrs[idx]) {
                found = true;
            } else {
                idx += 1;
            }
        }
        if !found {
            // No derive attribute: create one holding exactly the new
            // entries and append it.
            proof {
                assert(find_derive(a0) == -1) by {
                    if find_derive(a0) != -1 {
                        assert(is_derive_list_attr(a0[find_derive(a0)]));
                    }
                };
            }
            let mut entries: Vec<Meta> = Vec::new();
            let m = derives.len();
            let mut k: usize = 0;
            while k < m
                invariant
                    k <= m,
                    m == derives@.len(),
                    entries@.len() == k,
                    forall|j: int| #![auto] 0 <= j < k ==> entries@[j].deep_view()
                        == MetaView::Path(news[j]),
                decreases m - k,
            {
                entries.push(Meta::Path(derives[k].clone()));
                k += 1;
            }
            proof {
                lemma_deep_seq(entries@);
                assert(Meta::deep_seq(entries@) =~= path_entries(news));
            }
            let mut segs: Vec<String> = Vec::new();
            segs.push("derive".to_owned());
            proof {
                assert(segs.deep_view() =~= derive_path());
            }
            self.attrs.push(Attribute { path: Path { segments: segs }, payload: Payload::List(entries) });
            proof {
                assert(self.attrs.deep_view() =~= a0.push(
                    AttributeView {
                        path: derive_path(),
                        payload: PayloadView::List(path_entries(news)),
                    },
                ));
                assert(self@ == (DeriveInputView { attrs: merged_attrs(a0, news), ..old(self)@ }));
            }
            return Ok(());
        }
        // A derive attribute exists at `idx`, the first one.
        proof {
            assert(find_derive(a0) == idx) by {
                assert(is_derive_list_attr(a0[idx as int]));
                if find_derive(a0) != idx {
                    lemma_find_derive_char(a0);
                }
            };
        }
        let ghost exd = attr_params(a0[idx as int]);
        // Collect the new entries that are already present, in order.
        let mut overlaps: Vec<String> = Vec::new();
        let m = derives.len();
        {
            let ex: &Vec<Meta> = match &self.attrs[idx].payload {
                Payload::List(ms) => ms,
                _ => unreached(),
            };
            proof {
                lemma_deep_seq_is_deep_view(*ex);
                assert(ex.deep_view() == exd);
            }
            let mut k: usize = 0;
            while k < m
                invariant
                    k <= m,
                    m == derives@.len(),
                    overlaps.deep_view() == overlap_names(news.take(k as int), exd),
                decreases m - k,
            {
                proof {
                    lemma_take_step(news, k as int);
                }
                if derive_list_contains(ex, &derives[k]) {
                    overlaps.push(util::format_path(&derives[k]));
                    proof {
                        assert(overlaps.deep_view() =~= overlap_names(news.take(k as int + 1), exd));
                    }
                } else {
                    proof {
                        assert(overlaps.deep_view() =~= overlap_names(news.take(k as int + 1), exd));
                    }
                }
                k += 1;
            }
            proof {
                assert(news.take(m as int) =~= news);
            }
        }
        if overlaps.len() > 0 {
            return Err(Error::DeriveConflict(overlaps));
        }
        // No overlap: append the new entries after the existing ones, in
        // place.
        let attr = self.attrs.remove(idx);
        let (apath, mut ms): (Path, Vec<Meta>) = match attr {
            Attribute { path: apath, payload: Payload::List(ms) } => (apath, ms),
            _ => unreached(),
        };
        proof {
            assert(Meta::deep_seq(ms@) == exd);
            assert(apath.deep_view() == a0[idx as int].path);
            assert(Meta::deep_seq(ms@) =~= exd + path_entries(news.take(0)));
        }
        let mut k: usize = 0;
        while k < m
            invariant
                k <= m,
                m == derives@.len(),
                Meta::deep_seq(ms@) == exd + path_entries(news.take(k as int)),
            decreases m - k,
        {
            proof {
                lemma_take_step(news, k as int);
            }
            let ghost prev = ms@;
            ms.push(Meta::Path(derives[k].clone()));
            proof {
                assert(ms@.drop_last() =~= prev);
                assert(ms@.last().deep() == MetaView::Path(news[k as int]));
                assert(Meta::deep_seq(ms@) == Meta::deep_seq(prev).push(
                    MetaView::Path(news[k as int]),
                ));
                assert(path_entries(news.take(k as int + 1)) =~= path_entries(
                    news.take(k as int),
                ).push(MetaView::Path(news[k as int])));
                assert(Meta::deep_seq(ms@) =~= exd + path_entries(news.take(k as int + 1)));
            }
            k += 1;
        }
        proof {
            assert(news.take(m as int) =~= news);
        }
        self.attrs.insert(idx, Attribute { path: apath, payload: Payload::List(ms) });
        proof {
            assert(self.attrs.deep_view() =~= merged_attrs(a0, news));
            assert(self@ == (DeriveInputView { attrs: merged_attrs(a0, news), ..old(self)@ }));
        }
        Ok(())
    }
}

} // verus!
