//! The remote gateway, as far as it decides: which request a catalog refresh
//! makes next, how pages and profiles are merged into one collection, and what
//! the outcome of a start or of a token submission says.
//!
//! Sending a request and reading its answer is the driver's part. It hands each
//! answer to the state below and gets the next request back.

use crate::json::{address_in, profile_ip};
use crate::machine::{Machine, Root};
use crate::text::{decimal, numbered, prefixed, text_view};
use vstd::prelude::*;
use vstd::string::*;

verus! {

/// The address of the first page of the active catalog.
pub open spec fn active_catalog_address() -> Seq<char> {
    "https://labs.hackthebox.com/api/v4/machine/paginated?per_page=100"@
}

/// The address of the first page of the retired catalog.
pub open spec fn retired_catalog_address() -> Seq<char> {
    "https://labs.hackthebox.com/api/v4/machine/list/retired/paginated?per_page=100"@
}

/// The address of the profile of the record `id`.
pub open spec fn profile_address(id: u64) -> Seq<char> {
    "https://labs.hackthebox.com/api/v4/machine/profile/"@ + decimal(id as nat)
}

/// The address of the start action for the record `id`.
pub open spec fn spawn_address(id: u64) -> Seq<char> {
    "https://labs.hackthebox.com/api/v4/vm/spawn/?machine_id="@ + decimal(id as nat)
}

/// The address to which tokens are submitted.
pub open spec fn own_address() -> Seq<char> {
    "https://labs.hackthebox.com/api/v4/machine/own"@
}

/// The address of the first page of the active catalog.
pub fn active_catalog_url() -> (r: String)
    ensures
        r@ == active_catalog_address(),
{
    String::from_str("https://labs.hackthebox.com/api/v4/machine/paginated?per_page=100")
}

/// The address of the first page of the retired catalog.
pub fn retired_catalog_url() -> (r: String)
    ensures
        r@ == retired_catalog_address(),
{
    String::from_str(
        "https://labs.hackthebox.com/api/v4/machine/list/retired/paginated?per_page=100",
    )
}

/// The address of the profile of the record `id`.
pub fn profile_url(id: u64) -> (r: String)
    ensures
        r@ == profile_address(id),
{
    let r = numbered("https://labs.hackthebox.com/api/v4/machine/profile/", id, "");
    proof {
        reveal_strlit("");
        assert(r@ =~= profile_address(id));
    }
    r
}

/// The address of the start action for the record `id`.
pub fn spawn_url(id: u64) -> (r: String)
    ensures
        r@ == spawn_address(id),
{
    let r = numbered("https://labs.hackthebox.com/api/v4/vm/spawn/?machine_id=", id, "");
    proof {
        reveal_strlit("");
        assert(r@ =~= spawn_address(id));
    }
    r
}

/// The address to which tokens are submitted.
pub fn own_url() -> (r: String)
    ensures
        r@ == own_address(),
{
    String::from_str("https://labs.hackthebox.com/api/v4/machine/own")
}

/// The value of the authorization header for a credential.
pub fn bearer(htb_api_key: &str) -> (r: String)
    ensures
        r@ == "Bearer "@ + htb_api_key@,
{
    prefixed("Bearer ", htb_api_key)
}

/// The position of the first active record of `page` at or after `from`; the
/// length of the page where there is none.
pub open spec fn next_active(page: Seq<Machine>, from: int) -> int
    decreases page.len() - from,
{
    if from >= page.len() {
        page.len() as int
    } else if page[from].active() {
        from
    } else {
        next_active(page, from + 1)
    }
}

/// A refresh that waits for a page of the catalog.
#[derive(Debug, PartialEq, Eq)]
pub struct PageWait {
    /// The records of the pages that are done, in page order.
    pub collected: Vec<Machine>,
    /// Whether the awaited page belongs to the retired catalog.
    pub retired: bool,
}

/// A refresh that waits for the profile of one active record of the page in
/// hand.
#[derive(Debug, PartialEq, Eq)]
pub struct DetailWait {
    /// The records of the pages that are done, in page order.
    pub collected: Vec<Machine>,
    /// The records of the page in hand.
    pub page: Vec<Machine>,
    /// The position in the page of the record whose profile is awaited.
    pub cursor: usize,
    /// The link to the page after the one in hand, if any.
    pub next: Option<String>,
    /// Whether the page in hand belongs to the retired catalog.
    pub retired: bool,
}

/// Where a refresh stands after an answer was taken in.
#[derive(Debug, PartialEq, Eq)]
pub enum Progress {
    /// The page at this address is to be fetched.
    Page(PageWait, String),
    /// The profile of the record with this identifier is to be fetched.
    Detail(DetailWait, u64),
    /// The refresh is done: this is the whole catalog.
    Done(Vec<Machine>),
    /// The refresh failed with this error; nothing of it is kept.
    Failed(String),
}

/// Whether `r` is where a refresh stands once the records of `page` before
/// `cursor` are dealt with. The next active record of the page has its profile
/// fetched. Where none is left, the page joins the collected records; after the
/// page of the active catalog comes the first page of the retired catalog, after
/// a retired page the one that its link names, and without a link the refresh is
/// done.
pub open spec fn advanced(
    collected: Seq<Machine>,
    page: Seq<Machine>,
    cursor: int,
    next: Option<String>,
    retired: bool,
    r: Progress,
) -> bool {
    let k = next_active(page, cursor);
    if k < page.len() {
        &&& r matches Progress::Detail(w, id)
        &&& id == page[k].id
        &&& w.collected@ == collected
        &&& w.page@ == page
        &&& w.cursor == k
        &&& w.next == next
        &&& w.retired == retired
    } else if !retired {
        &&& r matches Progress::Page(w, url)
        &&& w.collected@ == collected + page
        &&& w.retired
        &&& url@ == retired_catalog_address()
    } else {
        match next {
            Some(link) => {
                &&& r matches Progress::Page(w, url)
                &&& w.collected@ == collected + page
                &&& w.retired
                &&& url@ == link@
            },
            None => r matches Progress::Done(all) && all@ == collected + page,
        }
    }
}

/// The page with the address of the record at `cursor` set to `ip`, where an
/// address was found and the cursor points at a record.
pub open spec fn enriched(page: Seq<Machine>, cursor: int, ip: Option<String>) -> Seq<Machine> {
    if 0 <= cursor < page.len() && ip.is_some() {
        page.update(cursor, page[cursor].with_ip(ip))
    } else {
        page
    }
}

/// What `next_active` finds: every record from `from` up to the position found
/// is inactive, and the record there, if the page reaches that far, is active.
pub proof fn lemma_next_active(page: Seq<Machine>, from: int)
    requires
        0 <= from <= page.len(),
    ensures
        from <= next_active(page, from) <= page.len(),
        forall|i: int| from <= i < next_active(page, from) ==> !(#[trigger] page[i]).active(),
        next_active(page, from) < page.len() ==> page[next_active(page, from)].active(),
    decreases page.len() - from,
{
    if from < page.len() && !page[from].active() {
        lemma_next_active(page, from + 1);
    }
}

/// Enrichment loses no record and moves none: the page keeps its length, and
/// each record stays what it was but for the address of the one at the cursor.
pub proof fn lemma_enriched_keeps_records(page: Seq<Machine>, cursor: int, ip: Option<String>)
    ensures
        enriched(page, cursor, ip).len() == page.len(),
        forall|i: int|
            0 <= i < page.len() ==> (#[trigger] enriched(page, cursor, ip)[i]).with_ip(page[i].ip)
                == page[i],
        forall|i: int|
            0 <= i < page.len() && i != cursor ==> #[trigger] enriched(page, cursor, ip)[i]
                == page[i],
        0 <= cursor < page.len() && ip.is_some() ==> enriched(page, cursor, ip)[cursor].ip == ip,
{
}

/// A page none of whose records is active is merged at once, behind what was
/// collected before: the refresh goes on with the page that the link names, or
/// ends with the merged collection where there is no link.
pub proof fn lemma_plain_page_is_merged(
    collected: Seq<Machine>,
    page: Seq<Machine>,
    next: Option<String>,
    r: Progress,
)
    requires
        forall|i: int| 0 <= i < page.len() ==> !(#[trigger] page[i]).active(),
        advanced(collected, page, 0, next, true, r),
    ensures
        next matches Some(link) ==> (r matches Progress::Page(w, url) && w.collected@ == collected
            + page && url@ == link@),
        next is None ==> (r matches Progress::Done(all) && all@ == collected + page),
{
    lemma_next_active(page, 0);
}

/// The records of the first `n` of the given pages, in page order.
pub open spec fn merged(pages: Seq<Root>, n: nat) -> Seq<Machine>
    decreases n,
{
    if n == 0 {
        Seq::empty()
    } else {
        merged(pages, (n - 1) as nat) + pages[n - 1].data@
    }
}

/// Whether `steps` is the course of a refresh that is answered with `pages`, one
/// page per request: the first step takes in the page of the active catalog, and
/// each later step takes in the next page where the step before asked for one.
pub open spec fn follows(pages: Seq<Root>, steps: Seq<Progress>) -> bool {
    &&& steps.len() == pages.len()
    &&& pages.len() > 0 ==> advanced(
        Seq::empty(),
        pages[0].data@,
        0,
        pages[0].links.next,
        false,
        steps[0],
    )
    &&& forall|i: int|
        1 <= i < steps.len() ==> (steps[i - 1] matches Progress::Page(w, _) ==> advanced(
            w.collected@,
            pages[i].data@,
            0,
            pages[i].links.next,
            w.retired,
            #[trigger] steps[i],
        ))
}

/// The address that a refresh asks for after it took in page `i`: the first page
/// of the retired catalog after the page of the active catalog, and after a
/// retired page the page that its link names.
pub open spec fn asked_after(pages: Seq<Root>, i: int) -> Seq<char> {
    if i == 0 {
        retired_catalog_address()
    } else {
        pages[i].links.next.unwrap()@
    }
}

/// Pagination: a refresh that gets the page of the active catalog and then a
/// series of retired pages, each but the last with a link to the next, none with
/// an active record, asks for each linked page in turn and ends, at the page
/// without a link, with the records of all pages in page order.
pub proof fn lemma_pagination_merges(pages: Seq<Root>, steps: Seq<Progress>)
    requires
        pages.len() >= 2,
        follows(pages, steps),
        forall|i: int, j: int|
            0 <= i < pages.len() && 0 <= j < pages[i].data@.len() ==> !(#[trigger] pages[i].data@[j]).active(),
        forall|i: int| 1 <= i < pages.len() - 1 ==> (#[trigger] pages[i]).links.next.is_some(),
        pages[pages.len() - 1].links.next.is_none(),
    ensures
        forall|i: int|
            0 <= i < pages.len() - 1 ==> (#[trigger] steps[i] matches Progress::Page(_, url) && url@
                == asked_after(pages, i)),
        steps[pages.len() - 1] matches Progress::Done(all) && all@ == merged(pages, pages.len()),
{
    lemma_pagination_prefix(pages, steps, pages.len() - 2);
    let last = pages.len() - 1;
    lemma_next_active(pages[last].data@, 0);
    assert(steps[last - 1] is Page);
    assert(advanced(
        steps[last - 1]->Page_0.collected@,
        pages[last].data@,
        0,
        pages[last].links.next,
        steps[last - 1]->Page_0.retired,
        steps[last],
    ));
}

/// The course of a refresh up to step `n`, before the last page: every step asks
/// for a page and has collected the pages taken in so far.
proof fn lemma_pagination_prefix(pages: Seq<Root>, steps: Seq<Progress>, n: int)
    requires
        pages.len() >= 2,
        0 <= n <= pages.len() - 2,
        follows(pages, steps),
        forall|i: int, j: int|
            0 <= i < pages.len() && 0 <= j < pages[i].data@.len() ==> !(#[trigger] pages[i].data@[j]).active(),
        forall|i: int| 1 <= i < pages.len() - 1 ==> (#[trigger] pages[i]).links.next.is_some(),
    ensures
        forall|i: int|
            0 <= i <= n ==> (#[trigger] steps[i] matches Progress::Page(w, url) && w.retired
                && w.collected@ == merged(pages, (i + 1) as nat) && url@ == asked_after(pages, i)),
    decreases n,
{
    lemma_next_active(pages[n].data@, 0);
    if n == 0 {
        assert(merged(pages, 1) =~= pages[0].data@) by {
            assert(merged(pages, 0) =~= Seq::<Machine>::empty());
        }
        assert(Seq::<Machine>::empty() + pages[0].data@ =~= pages[0].data@);
    } else {
        lemma_pagination_prefix(pages, steps, n - 1);
        assert(steps[n - 1] is Page);
        assert(advanced(
            steps[n - 1]->Page_0.collected@,
            pages[n].data@,
            0,
            pages[n].links.next,
            steps[n - 1]->Page_0.retired,
            steps[n],
        ));
        assert(pages[n].links.next.is_some());
    }
}

fn advance(
    collected: Vec<Machine>,
    page: Vec<Machine>,
    cursor: usize,
    next: Option<String>,
    retired: bool,
) -> (r: Progress)
    ensures
        advanced(collected@, page@, cursor as int, next, retired, r),
{
    let mut k: usize = cursor;
    while k < page.len() && !page[k].is_active()
        invariant
            cursor <= k,
            next_active(page@, cursor as int) == next_active(page@, k as int),
        decreases page.len() - k,
    {
        k = k + 1;
    }
    if k < page.len() {
        let id: u64 = page[k].id;
        Progress::Detail(DetailWait { collected, page, cursor: k, next, retired }, id)
    } else {
        let mut collected = collected;
        let mut page = page;
        collected.append(&mut page);
        if !retired {
            Progress::Page(PageWait { collected, retired: true }, retired_catalog_url())
        } else {
            match next {
                Some(link) => Progress::Page(PageWait { collected, retired: true }, link),
                None => Progress::Done(collected),
            }
        }
    }
}

/// Whether `r` is where a refresh that waited for a page stands once `page` has
/// come: failed with the error that came, or advanced into the page that came.
pub open spec fn page_taken(wait: PageWait, page: Result<Root, String>, r: Progress) -> bool {
    match page {
        Ok(root) => advanced(wait.collected@, root.data@, 0, root.links.next, wait.retired, r),
        Err(e) => r == Progress::Failed(e),
    }
}

/// Whether `r` is where a refresh that waited for a profile stands once the
/// profile gave `ip`: the awaited record has the address, if one was found, and
/// the refresh has advanced behind that record.
pub open spec fn profile_taken(wait: DetailWait, ip: Option<String>, r: Progress) -> bool {
    advanced(
        wait.collected@,
        enriched(wait.page@, wait.cursor as int, ip),
        if wait.cursor < wait.page.len() {
            wait.cursor + 1
        } else {
            wait.cursor as int
        },
        wait.next,
        wait.retired,
        r,
    )
}

/// Whether `r` is where a refresh that waited for a profile stands once the
/// request was answered with `response`: the profile gave the address that the
/// body of the response holds, and none where no response came.
pub open spec fn response_taken(wait: DetailWait, response: Result<String, String>, r: Progress) -> bool {
    exists|ip: Option<String>|
        text_view(ip) == answered_address(response) && #[trigger] profile_taken(wait, ip, r)
}

/// The address that the answer to a profile request holds.
pub open spec fn answered_address(response: Result<String, String>) -> Option<Seq<char>> {
    match response {
        Ok(body) => address_in(body@),
        Err(_) => None,
    }
}

/// Begins a refresh: the first page of the active catalog is to be fetched.
pub fn fetch_all_machines() -> (r: (PageWait, String))
    ensures
        r.0.collected@ == Seq::<Machine>::empty(),
        !r.0.retired,
        r.1@ == active_catalog_address(),
{
    (PageWait { collected: Vec::new(), retired: false }, active_catalog_url())
}

/// Takes in one page of the catalog, or the failure to get it. A failure ends
/// the whole refresh with that error. Otherwise the active records of the page
/// have their profiles fetched one after the other, and a page without active
/// records is merged at once.
pub fn fetch_machines(wait: PageWait, page: Result<Root, String>) -> (r: Progress)
    ensures
        page_taken(wait, page, r),
{
    match page {
        Ok(root) => advance(wait.collected, root.data, 0, root.links.next, wait.retired),
        Err(e) => Progress::Failed(e),
    }
}

impl DetailWait {
    /// Takes in what the profile gave for the awaited record: with an address
    /// the record gets it, without one the record stays as it is. Then the
    /// refresh goes on behind that record.
    pub fn supply(self, ip: Option<String>) -> (r: Progress)
        ensures
            profile_taken(self, ip, r),
    {
        let mut page = self.page;
        if self.cursor < page.len() {
            match ip {
                Some(address) => {
                    let mut machine = page[self.cursor].clone();
                    machine.ip = Some(address);
                    page.set(self.cursor, machine);
                    assert(page@ =~= enriched(self.page@, self.cursor as int, ip));
                },
                None => {},
            }
            advance(self.collected, page, self.cursor + 1, self.next, self.retired)
        } else {
            advance(self.collected, page, self.cursor, self.next, self.retired)
        }
    }

    /// Takes in the answer to the profile request: the body of the response, or
    /// the failure to get one. A failure, and a body without an address, leave
    /// the record without address; neither ends the refresh.
    pub fn supply_response(self, response: Result<String, String>) -> (r: Progress)
        ensures
            response_taken(self, response, r),
    {
        let ip: Option<String> = match response {
            Ok(body) => profile_ip(body.as_str()),
            Err(_) => None,
        };
        let r = self.supply(ip);
        assert(text_view(ip) == answered_address(response));
        assert(profile_taken(self, ip, r));
        r
    }
}

/// How the service answered an action request.
#[derive(Debug, PartialEq, Eq)]
pub enum Reply {
    /// A response came, with this status code and this status line.
    Status(u16, String),
    /// No response came; the text says why.
    Transport(String),
}

/// The outcome text of a start request that succeeded.
pub open spec fn spawned_text(id: u64) -> Seq<char> {
    "Machine "@ + decimal(id as nat) + " spawned successfully"@
}

/// The outcome text of a token that was accepted.
pub open spec fn owned_text(id: u64) -> Seq<char> {
    "Flag for machine "@ + decimal(id as nat) + " is correct"@
}

/// The outcome text of a token that was not accepted.
pub open spec fn wrong_flag_text(id: u64) -> Seq<char> {
    "Wrong flag for machine "@ + decimal(id as nat)
}

/// Whether a status code is in the success class.
pub open spec fn is_success(code: u16) -> bool {
    200 <= code < 300
}

/// Whether `r` is the outcome of a start request for the record `id` that was
/// answered with `reply`.
pub open spec fn spawn_outcome(id: u64, reply: Reply, r: Result<String, String>) -> bool {
    match reply {
        Reply::Status(code, line) => if is_success(code) {
            r matches Ok(m) && m@ == spawned_text(id)
        } else {
            r matches Err(m) && m@ == "Failed to spawn with status: "@ + line@
        },
        Reply::Transport(e) => r matches Err(m) && m@ == "Network request failed: "@ + e@,
    }
}

/// Whether `r` is the outcome of a token submission for the record `id` that was
/// answered with `reply`.
pub open spec fn submit_outcome(id: u64, reply: Reply, r: Result<String, String>) -> bool {
    match reply {
        Reply::Status(code, _) => if is_success(code) {
            r matches Ok(m) && m@ == owned_text(id)
        } else {
            r matches Err(m) && m@ == wrong_flag_text(id)
        },
        Reply::Transport(e) => r matches Err(m) && m@ == "Network request failed: "@ + e@,
    }
}

/// The outcome of a start request: a success message when the status is in the
/// success class, the status line behind a fixed prefix for any other status,
/// and the transport error behind another prefix where no response came.
pub fn spawn_machine(machine_id: u64, reply: &Reply) -> (r: Result<String, String>)
    ensures
        spawn_outcome(machine_id, *reply, r),
{
    match reply {
        Reply::Status(code, line) => {
            if 200 <= *code && *code < 300 {
                Ok(numbered("Machine ", machine_id, " spawned successfully"))
            } else {
                Err(prefixed("Failed to spawn with status: ", line.as_str()))
            }
        },
        Reply::Transport(e) => Err(prefixed("Network request failed: ", e.as_str())),
    }
}

/// The outcome of a token submission: a success message when the status is in
/// the success class; any other status counts as a wrong token, whatever the
/// reason; and the transport error behind a prefix where no response came.
pub fn submit_flag(machine_id: u64, reply: &Reply) -> (r: Result<String, String>)
    ensures
        submit_outcome(machine_id, *reply, r),
{
    match reply {
        Reply::Status(code, _) => {
            if 200 <= *code && *code < 300 {
                Ok(numbered("Flag for machine ", machine_id, " is correct"))
            } else {
                let r = numbered("Wrong flag for machine ", machine_id, "");
                proof {
                    reveal_strlit("");
                    assert(r@ =~= wrong_flag_text(machine_id));
                }
                Err(r)
            }
        },
        Reply::Transport(e) => Err(prefixed("Network request failed: ", e.as_str())),
    }
}

} // verus!
