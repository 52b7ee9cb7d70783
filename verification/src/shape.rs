//! Arithmetic on tensor extents: element counts, their limit, and the extent
//! that a convolution window leaves of an axis.

use vstd::prelude::*;

verus! {

/// The number of elements of a tensor with the extents `dims`: their product.
pub open spec fn element_count(dims: Seq<usize>) -> nat
    decreases dims.len(),
{
    if dims.len() == 0 {
        1
    } else {
        element_count(dims.drop_last()) * (dims.last() as nat)
    }
}

/// Every extent is at least one.
pub open spec fn no_axis_empty(dims: Seq<usize>) -> bool {
    forall|i: int| 0 <= i < dims.len() ==> dims[i] >= 1
}

/// The largest element count of a single buffer. With elements of up to eight
/// bytes such a buffer stays below `isize::MAX` bytes.
pub open spec fn max_elements() -> nat {
    (usize::MAX / 16) as nat
}

/// A tensor with the extents `dims` has at least one element and at most
/// `max_elements`.
pub open spec fn sized(dims: Seq<usize>) -> bool {
    no_axis_empty(dims) && element_count(dims) <= max_elements()
}

/// The extents with a batch of no image counted as a batch of one: the first
/// extent is raised from zero to one.
pub open spec fn at_least_one_image(dims: Seq<usize>) -> Seq<usize> {
    if dims.len() > 0 && dims[0] == 0 {
        dims.update(0, 1)
    } else {
        dims
    }
}

/// A batch with the extents `dims` is within the limit, and so is one image
/// of it where the batch is empty: no axis but the first is empty, and the
/// batch, counted as one image at least, has at most `max_elements` elements.
pub open spec fn batch_sized(dims: Seq<usize>) -> bool {
    sized(at_least_one_image(dims))
}

/// The extent that a window of `kernel` taps, `dilation` apart, leaves of an
/// axis of `input` elements padded by `padding` on both ends, when it moves in
/// steps of `stride`.
pub open spec fn conv_extent(input: int, kernel: int, padding: int, stride: int, dilation: int) -> int {
    (input + 2 * padding - dilation * (kernel - 1) - 1) / stride + 1
}

/// One more axis multiplies the element count by its extent.
pub proof fn lemma_element_count_push(dims: Seq<usize>, extent: usize)
    ensures
        element_count(dims.push(extent)) == element_count(dims) * extent,
{
    assert(dims.push(extent).drop_last() =~= dims);
}

/// Where no axis is empty, the leading axes alone have no more elements than
/// all axes together.
pub proof fn lemma_element_count_of_prefix(dims: Seq<usize>, n: int)
    requires
        no_axis_empty(dims),
        0 <= n <= dims.len(),
    ensures
        element_count(dims.take(n)) <= element_count(dims),
    decreases dims.len(),
{
    if n == dims.len() {
        assert(dims.take(n) =~= dims);
    } else {
        let front = dims.drop_last();
        assert(front.take(n) =~= dims.take(n));
        lemma_element_count_of_prefix(front, n);
        assert(element_count(front) * dims.last() >= element_count(front)) by (nonlinear_arith)
            requires
                dims.last() >= 1,
        ;
    }
}

/// A tensor with one axis has as many elements as the axis is long.
pub proof fn lemma_element_count_of_one(a: usize)
    ensures
        element_count(seq![a]) == a,
{
    lemma_element_count_push(Seq::empty(), a);
    assert(seq![a] =~= Seq::empty().push(a));
    assert(element_count(Seq::<usize>::empty()) == 1);
    assert(1 * a == a);
}

/// A tensor with four axes has the product of the four extents as its element
/// count.
pub proof fn lemma_element_count_of_four(a: usize, b: usize, c: usize, d: usize)
    ensures
        element_count(seq![a, b, c, d]) == a * b * c * d,
{
    lemma_element_count_of_one(a);
    lemma_element_count_push(seq![a], b);
    lemma_element_count_push(seq![a, b], c);
    lemma_element_count_push(seq![a, b, c], d);
    assert(seq![a, b] =~= seq![a].push(b));
    assert(seq![a, b, c] =~= seq![a, b].push(c));
    assert(seq![a, b, c, d] =~= seq![a, b, c].push(d));
}

/// A tensor with six axes has the product of the six extents as its element
/// count.
pub proof fn lemma_element_count_of_six(a: usize, b: usize, c: usize, d: usize, e: usize, f: usize)
    ensures
        element_count(seq![a, b, c, d, e, f]) == a * b * c * d * e * f,
{
    lemma_element_count_of_four(a, b, c, d);
    lemma_element_count_push(seq![a, b, c, d], e);
    lemma_element_count_push(seq![a, b, c, d, e], f);
    assert(seq![a, b, c, d, e] =~= seq![a, b, c, d].push(e));
    assert(seq![a, b, c, d, e, f] =~= seq![a, b, c, d, e].push(f));
}

/// What `sized` says of four axes, written out.
pub proof fn lemma_sized_of_four(a: usize, b: usize, c: usize, d: usize)
    ensures
        sized(seq![a, b, c, d]) <==> {
            &&& a >= 1 && b >= 1 && c >= 1 && d >= 1
            &&& a * b * c * d <= max_elements()
        },
{
    let dims = seq![a, b, c, d];
    lemma_element_count_of_four(a, b, c, d);
    assert(dims[0] == a && dims[1] == b && dims[2] == c && dims[3] == d);
}

/// What `sized` says of six axes, written out.
pub proof fn lemma_sized_of_six(a: usize, b: usize, c: usize, d: usize, e: usize, f: usize)
    ensures
        sized(seq![a, b, c, d, e, f]) <==> {
            &&& a >= 1 && b >= 1 && c >= 1 && d >= 1 && e >= 1 && f >= 1
            &&& a * b * c * d * e * f <= max_elements()
        },
{
    let dims = seq![a, b, c, d, e, f];
    lemma_element_count_of_six(a, b, c, d, e, f);
    assert(dims[0] == a && dims[1] == b && dims[2] == c && dims[3] == d && dims[4] == e
        && dims[5] == f);
}

/// `max_elements` as a machine integer.
pub fn element_limit() -> (limit: usize)
    ensures
        limit == max_elements(),
{
    usize::MAX / 16
}

/// `a * b`, where that is at most `limit`.
pub fn bounded_mul(a: usize, b: usize, limit: usize) -> (product: Option<usize>)
    ensures
        product is Some <==> a * b <= limit,
        product matches Some(p) ==> p == a * b,
{
    match a.checked_mul(b) {
        Some(p) => if p <= limit {
            Some(p)
        } else {
            None
        },
        None => None,
    }
}

/// The element count of a tensor with the extents `dims`, where no axis is
/// empty and the count is at most `limit`.
pub fn checked_element_count(dims: &[usize], limit: usize) -> (count: Option<usize>)
    ensures
        count is Some <==> no_axis_empty(dims@) && element_count(dims@) <= limit,
        count matches Some(n) ==> n == element_count(dims@),
{
    if limit == 0 {
        proof {
            if no_axis_empty(dims@) {
                lemma_element_count_of_prefix(dims@, 0);
                assert(dims@.take(0) =~= Seq::<usize>::empty());
            }
        }
        return None;
    }
    let mut count: usize = 1;
    let mut i: usize = 0;
    assert(dims@.take(0) =~= Seq::<usize>::empty());
    while i < dims.len()
        invariant
            i <= dims.len(),
            count <= limit,
            count == element_count(dims@.take(i as int)),
            no_axis_empty(dims@.take(i as int)),
        decreases dims.len() - i,
    {
        let extent: usize = dims[i];
        proof {
            assert(dims@.take(i + 1) =~= dims@.take(i as int).push(extent));
            lemma_element_count_push(dims@.take(i as int), extent);
            if no_axis_empty(dims@) {
                lemma_element_count_of_prefix(dims@, i + 1);
            }
        }
        if extent == 0 {
            return None;
        }
        match bounded_mul(count, extent, limit) {
            Some(product) => {
                count = product;
            },
            None => {
                return None;
            },
        }
        i += 1;
    }
    assert(dims@.take(dims.len() as int) =~= dims@);
    Some(count)
}

/// Whether a tensor with the extents `dims` has at least one element and at
/// most `max_elements`.
pub fn is_sized(dims: &[usize]) -> (ok: bool)
    ensures
        ok == sized(dims@),
{
    checked_element_count(dims, element_limit()).is_some()
}

/// Whether a batch with the extents `dims` is within the limit, an empty
/// batch counted as one image.
pub fn is_batch_sized(dims: &[usize]) -> (ok: bool)
    ensures
        ok == batch_sized(dims@),
{
    if dims.len() > 0 && dims[0] == 0 {
        let mut one: Vec<usize> = Vec::new();
        one.push(1);
        let mut i: usize = 1;
        while i < dims.len()
            invariant
                1 <= i <= dims.len(),
                one@ == dims@.update(0, 1).take(i as int),
            decreases dims.len() - i,
        {
            one.push(dims[i]);
            i += 1;
            assert(one@ =~= dims@.update(0, 1).take(i as int));
        }
        assert(dims@.update(0, 1).take(dims.len() as int) =~= dims@.update(0, 1));
        is_sized(one.as_slice())
    } else {
        is_sized(dims)
    }
}

/// The extent that a window of `kernel` adjacent taps leaves of an axis of
/// `input` elements padded by `padding` on both ends, when it moves in steps
/// of `stride`; `None` where there is no window or no step, or where the
/// padded axis is too long for the machine or too short for the window.
pub fn axis_extent(input: usize, kernel: usize, padding: usize, stride: usize) -> (extent: Option<usize>)
    ensures
        extent is Some <==> stride >= 1 && 1 <= kernel <= input + 2 * padding <= usize::MAX,
        extent matches Some(e) ==> e == conv_extent(input as int, kernel as int, padding as int, stride as int, 1),
{
    if kernel == 0 || stride == 0 {
        return None;
    }
    let both: usize = match padding.checked_mul(2) {
        Some(v) => v,
        None => { return None; },
    };
    let padded: usize = match input.checked_add(both) {
        Some(v) => v,
        None => { return None; },
    };
    if kernel > padded {
        return None;
    }
    Some((padded - kernel) / stride + 1)
}

/// A window of odd size `2 * padding + 1` that moves one element at a time
/// over an axis padded by `padding` leaves the axis as long as it was.
pub proof fn lemma_same_padding_keeps_extent(input: int, padding: int)
    ensures
        conv_extent(input, 2 * padding + 1, padding, 1, 1) == input,
{
}

} // verus!
