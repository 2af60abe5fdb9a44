use vstd::prelude::*;

verus! {

/// `r` is a multiple of `page`, at least `request`, and less than one page above it.
pub open spec fn is_page_round_up(r: nat, request: nat, page: nat) -> bool {
    &&& page > 0
    &&& r % page == 0
    &&& r >= request
    &&& r < request + page
}

/// `request` rounded up to a whole number of pages.
pub open spec fn page_round_up(request: nat, page: nat) -> nat {
    if request % page == 0 {
        request
    } else {
        (request + (page - request % page)) as nat
    }
}

/// The byte length of a coroutine stack: a positive whole number of pages.
#[derive(Clone, Copy, Debug, PartialEq, Eq)]
pub struct StackSize {
    size: usize,
    page: usize,
}

impl StackSize {
    pub closed spec fn bytes(&self) -> nat {
        self.size as nat
    }

    pub closed spec fn page(&self) -> nat {
        self.page as nat
    }

    pub closed spec fn wf(&self) -> bool {
        &&& self.page > 0
        &&& self.size > 0
        &&& self.size % self.page == 0
    }

    /// Rounds `request` up to whole pages of `page` bytes. `None` when the
    /// request is empty or the rounded size does not fit in `usize`.
    pub fn new(request: usize, page: usize) -> (r: Option<StackSize>)
        requires
            page > 0,
        ensures
            r is None <==> (request == 0 || page_round_up(request as nat, page as nat) > usize::MAX),
            r matches Some(s) ==> s.wf() && s.page() == page as nat && s.bytes() == page_round_up(
                request as nat,
                page as nat,
            ),
    {
        if request == 0 {
            return None;
        }
        let rem = request % page;
        if rem == 0 {
            return Some(StackSize { size: request, page });
        }
        let pad = page - rem;
        if request > usize::MAX - pad {
            return None;
        }
        let size = request + pad;
        proof {
            lemma_pad_multiple(request as nat, page as nat);
        }
        Some(StackSize { size, page })
    }

    /// The rounded size in bytes.
    pub fn get_size(&self) -> (r: usize)
        ensures
            r as nat == self.bytes(),
    {
        self.size
    }
}

proof fn lemma_pad_multiple(request: nat, page: nat)
    requires
        page > 0,
        request % page != 0,
    ensures
        ((request + (page - request % page)) as nat) % page == 0,
        is_page_round_up((request + (page - request % page)) as nat, request, page),
{
    let q = request / page;
    let rem = request % page;
    assert(request == q * page + rem) by (nonlinear_arith)
        requires page > 0, q == request / page, rem == request % page;
    assert(request + (page - rem) == (q + 1) * page) by (nonlinear_arith)
        requires request == q * page + rem, rem < page;
    vstd::arithmetic::div_mod::lemma_mod_multiples_basic((q + 1) as int, page as int);
}

/// The smallest page multiple at or above a request is unique.
proof fn lemma_round_up_unique(m: nat, k: nat, request: nat, page: nat)
    requires
        is_page_round_up(m, request, page),
        is_page_round_up(k, request, page),
    ensures
        m == k,
{
    let a = m / page;
    let b = k / page;
    vstd::arithmetic::div_mod::lemma_fundamental_div_mod(m as int, page as int);
    vstd::arithmetic::div_mod::lemma_fundamental_div_mod(k as int, page as int);
    if a < b {
        assert(a * page + page <= b * page) by (nonlinear_arith)
            requires a < b, page > 0;
    } else if b < a {
        assert(b * page + page <= a * page) by (nonlinear_arith)
            requires b < a, page > 0;
    }
}

/// Stack rounding: for every non-empty request, the rounded size is the
/// smallest multiple of the page size that is not below the request: it is
/// such a multiple, and every such multiple equals it.
pub proof fn lemma_stack_size_is_smallest_page_multiple(request: nat, page: nat, other: nat)
    requires
        page > 0,
        request > 0,
    ensures
        page_round_up(request, page) > 0,
        is_page_round_up(page_round_up(request, page), request, page),
        is_page_round_up(other, request, page) ==> other == page_round_up(request, page),
{
    if request % page == 0 {
        assert(is_page_round_up(request, request, page));
    } else {
        lemma_pad_multiple(request, page);
    }
    if is_page_round_up(other, request, page) {
        lemma_round_up_unique(other, page_round_up(request, page), request, page);
    }
}

} // verus!
