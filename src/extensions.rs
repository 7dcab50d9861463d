//! Extension names: reading them out of the runtime's buffers and assembling
//! the lists that instance and device creation request.
use vstd::prelude::*;
use vstd::slice::{slice_subrange, slice_to_vec};
use vstd::string::StringSliceAdditionalSpecFns;

verus! {

/// Why a list of extension names could not be read.
#[derive(Clone, Copy, Debug, PartialEq, Eq, Structural)]
pub enum ExtensionListError {
    /// The reported count does not fit the buffer that was handed out.
    CountOutOfRange,
    /// An extension-property entry has no NUL terminator.
    UnterminatedName,
    /// The space-separated string holds a NUL before its reported end.
    EmbeddedNul,
}

/// The byte contents of a list of names.
pub open spec fn views(v: Seq<Vec<u8>>) -> Seq<Seq<u8>> {
    v.map_values(|t: Vec<u8>| t@)
}

pub open spec fn has_nul(s: Seq<u8>) -> bool {
    exists|j: int| 0 <= j < s.len() && s[j] == 0
}

/// `name` is the NUL-terminated string at the start of `entry`, without its NUL.
pub open spec fn terminated_name(name: Seq<u8>, entry: Seq<u8>) -> bool {
    &&& name.len() < entry.len()
    &&& entry[name.len() as int] == 0
    &&& name == entry.take(name.len() as int)
    &&& !has_nul(name)
}

/// The NUL-terminated name at the start of an extension-property entry, or
/// `None` when the entry holds no NUL at all.
pub fn extension_name(entry: &Vec<u8>) -> (r: Option<Vec<u8>>)
    ensures
        r is None <==> !has_nul(entry@),
        r matches Some(n) ==> terminated_name(n@, entry@),
{
    let mut name: Vec<u8> = Vec::new();
    let mut i: usize = 0;
    while i < entry.len()
        invariant
            i <= entry@.len(),
            name@ == entry@.take(i as int),
            forall|j: int| 0 <= j < i ==> entry@[j] != 0,
        decreases entry@.len() - i,
    {
        if entry[i] == 0 {
            return Some(name);
        }
        name.push(entry[i]);
        i = i + 1;
        assert(name@ =~= entry@.take(i as int));
    }
    None
}

/// Reads the names out of the buffer filled by the second of the two calls
/// that enumerate the runtime's instance extensions. `capacity` is the size the
/// buffer was handed out with (the count the first call reported); `count` is
/// what the second call reported written. The result holds exactly `count`
/// names, each without its NUL terminator.
pub fn available_extension_names(capacity: u32, count: u32, entries: &Vec<Vec<u8>>) -> (r:
    Result<Vec<Vec<u8>>, ExtensionListError>)
    ensures
        (count > capacity || count > entries@.len()) ==> r == Err::<Vec<Vec<u8>>,
            ExtensionListError>(ExtensionListError::CountOutOfRange),
        (count <= capacity && count <= entries@.len()) ==> {
            &&& r is Err <==> exists|k: int| 0 <= k < count && !has_nul(#[trigger] entries@[k]@)
            &&& r is Err ==> r == Err::<Vec<Vec<u8>>, ExtensionListError>(
                ExtensionListError::UnterminatedName,
            )
        },
        r matches Ok(names) ==> {
            &&& names@.len() == count
            &&& forall|k: int|
                0 <= k < count ==> terminated_name(#[trigger] names@[k]@, entries@[k]@)
        },
{
    if count > capacity || count as usize > entries.len() {
        return Err(ExtensionListError::CountOutOfRange);
    }
    let mut names: Vec<Vec<u8>> = Vec::new();
    let mut k: usize = 0;
    while k < count as usize
        invariant
            k <= count <= entries@.len(),
            count <= capacity,
            names@.len() == k,
            forall|j: int| 0 <= j < k ==> terminated_name(#[trigger] names@[j]@, entries@[j]@),
            forall|j: int| 0 <= j < k ==> has_nul(#[trigger] entries@[j]@),
        decreases count - k,
    {
        match extension_name(&entries[k]) {
            Some(n) => names.push(n),
            None => {
                return Err(ExtensionListError::UnterminatedName);
            },
        }
        k = k + 1;
    }
    Ok(names)
}

/// The bytes that `u8::is_ascii_whitespace` accepts: space, tab, line feed,
/// form feed and carriage return.
pub open spec fn is_ascii_whitespace(b: u8) -> bool {
    b == 0x20 || b == 0x09 || b == 0x0a || b == 0x0c || b == 0x0d
}

/// Scanning `s` from the left: the words already closed by whitespace, and the
/// word still being read.
pub open spec fn split_state(s: Seq<u8>) -> (Seq<Seq<u8>>, Seq<u8>)
    decreases s.len(),
{
    if s.len() == 0 {
        (Seq::empty(), Seq::empty())
    } else {
        let (done, word) = split_state(s.drop_last());
        if !is_ascii_whitespace(s.last()) {
            (done, word.push(s.last()))
        } else if word.len() > 0 {
            (done.push(word), Seq::empty())
        } else {
            (done, word)
        }
    }
}

/// The maximal runs of non-whitespace bytes of `s`, in order.
pub open spec fn split_ascii_whitespace(s: Seq<u8>) -> Seq<Seq<u8>> {
    let (done, word) = split_state(s);
    if word.len() > 0 {
        done.push(word)
    } else {
        done
    }
}

/// A word: at least one byte, and no whitespace.
pub open spec fn is_word(w: Seq<u8>) -> bool {
    w.len() > 0 && forall|k: int| 0 <= k < w.len() ==> !is_ascii_whitespace(#[trigger] w[k])
}

proof fn lemma_split_state_words(s: Seq<u8>)
    ensures
        forall|i: int|
            0 <= i < split_state(s).0.len() ==> is_word(#[trigger] split_state(s).0[i]),
        forall|k: int|
            0 <= k < split_state(s).1.len() ==> !is_ascii_whitespace(#[trigger] split_state(s).1[k]),
    decreases s.len(),
{
    if s.len() > 0 {
        lemma_split_state_words(s.drop_last());
        let (done, word) = split_state(s.drop_last());
        if !is_ascii_whitespace(s.last()) {
            assert forall|k: int| 0 <= k < word.push(s.last()).len() implies !is_ascii_whitespace(
                #[trigger] word.push(s.last())[k],
            ) by {
                if k < word.len() {
                    assert(word.push(s.last())[k] == word[k]);
                }
            }
        } else if word.len() > 0 {
            assert forall|i: int| 0 <= i < done.push(word).len() implies is_word(
                #[trigger] done.push(word)[i],
            ) by {
                if i < done.len() {
                    assert(done.push(word)[i] == done[i]);
                }
            }
        }
    }
}

/// Every piece that splitting yields is a word: non-empty and free of
/// whitespace.
pub proof fn lemma_split_yields_words(s: Seq<u8>)
    ensures
        forall|i: int|
            0 <= i < split_ascii_whitespace(s).len() ==> is_word(
                #[trigger] split_ascii_whitespace(s)[i],
            ),
{
    lemma_split_state_words(s);
    let (done, word) = split_state(s);
    if word.len() > 0 {
        assert forall|i: int| 0 <= i < done.push(word).len() implies is_word(
            #[trigger] done.push(word)[i],
        ) by {
            if i < done.len() {
                assert(done.push(word)[i] == done[i]);
            }
        }
    }
}

fn is_whitespace_byte(b: u8) -> (r: bool)
    ensures
        r == is_ascii_whitespace(b),
{
    b == 0x20 || b == 0x09 || b == 0x0a || b == 0x0c || b == 0x0d
}

/// Splits `s` into its whitespace-separated words, in order.
pub fn split_words(s: &[u8]) -> (r: Vec<Vec<u8>>)
    ensures
        views(r@) == split_ascii_whitespace(s@),
        forall|i: int| 0 <= i < r@.len() ==> is_word(#[trigger] r@[i]@),
{
    let mut done: Vec<Vec<u8>> = Vec::new();
    let mut word: Vec<u8> = Vec::new();
    let mut i: usize = 0;
    while i < s.len()
        invariant
            i <= s@.len(),
            (views(done@), word@) == split_state(s@.take(i as int)),
        decreases s@.len() - i,
    {
        proof {
            assert(s@.take(i + 1).drop_last() =~= s@.take(i as int));
        }
        let b: u8 = s[i];
        if !is_whitespace_byte(b) {
            word.push(b);
        } else if word.len() > 0 {
            done.push(word);
            word = Vec::new();
        }
        i = i + 1;
        assert(views(done@) =~= split_state(s@.take(i as int)).0);
        assert(word@ =~= split_state(s@.take(i as int)).1);
    }
    assert(s@.take(i as int) =~= s@);
    if word.len() > 0 {
        done.push(word);
    }
    assert(views(done@) =~= split_ascii_whitespace(s@));
    proof {
        lemma_split_yields_words(s@);
        assert forall|i: int| 0 <= i < done@.len() implies is_word(#[trigger] done@[i]@) by {
            assert(views(done@)[i] == done@[i]@);
        }
    }
    done
}

/// Whether the first `count - 1` bytes of `buffer`, the reported length of a
/// space-separated extension string less its NUL terminator, lie in the buffer.
pub open spec fn extension_string_in_range(buffer: Seq<u8>, count: u32) -> bool {
    1 <= count && count - 1 <= buffer.len()
}

/// Reads a space-separated list of Vulkan extension names that the runtime
/// wrote into `buffer`, reporting `count` bytes including a trailing NUL.
pub fn required_extension_names(buffer: &Vec<u8>, count: u32) -> (r: Result<
    Vec<Vec<u8>>,
    ExtensionListError,
>)
    ensures
        !extension_string_in_range(buffer@, count) ==> r == Err::<Vec<Vec<u8>>,
            ExtensionListError>(ExtensionListError::CountOutOfRange),
        extension_string_in_range(buffer@, count) ==> {
            let text = buffer@.take(count - 1);
            &&& has_nul(text) ==> r == Err::<Vec<Vec<u8>>, ExtensionListError>(
                ExtensionListError::EmbeddedNul,
            )
            &&& !has_nul(text) ==> (r matches Ok(names) && views(names@)
                == split_ascii_whitespace(text))
        },
{
    if count == 0 || (count - 1) as usize > buffer.len() {
        return Err(ExtensionListError::CountOutOfRange);
    }
    let len: usize = (count - 1) as usize;
    let text = slice_subrange(buffer.as_slice(), 0, len);
    let mut i: usize = 0;
    while i < len
        invariant
            len <= buffer@.len(),
            1 <= count,
            len == count - 1,
            text@ == buffer@.take(len as int),
            i <= len,
            forall|j: int| 0 <= j < i ==> text@[j] != 0,
        decreases len - i,
    {
        if text[i] == 0 {
            return Err(ExtensionListError::EmbeddedNul);
        }
        i = i + 1;
    }
    Ok(split_words(text))
}

/// OpenXR extension that lets the runtime drive a Vulkan device.
pub const XR_VULKAN_ENABLE: &'static str = "XR_KHR_vulkan_enable";

/// OpenXR extension that passes the Android VM and activity at instance creation.
pub const XR_ANDROID_CREATE_INSTANCE: &'static str = "XR_KHR_android_create_instance";

/// Vulkan instance extension requested ahead of those the runtime asks for.
pub const VK_DEBUG_REPORT: &'static str = "VK_EXT_debug_report";

/// Vulkan device extensions requested for the logical device.
pub const VK_SWAPCHAIN: &'static str = "VK_KHR_swapchain";

pub const VK_EXTERNAL_MEMORY: &'static str = "VK_KHR_external_memory";

pub const VK_EXTERNAL_MEMORY_FD: &'static str = "VK_KHR_external_memory_fd";

/// A name can be passed as a C string when it holds no NUL byte.
pub open spec fn is_c_name(n: Seq<u8>) -> bool {
    !has_nul(n)
}

/// The names of `s` that can be passed as C strings, in order.
pub open spec fn c_names(s: Seq<Seq<u8>>) -> Seq<Seq<u8>> {
    s.filter(|n: Seq<u8>| is_c_name(n))
}

fn name_bytes(s: &str) -> (r: Vec<u8>)
    ensures
        r@ == s.spec_bytes(),
{
    slice_to_vec(s.as_bytes())
}

fn holds_nul(n: &Vec<u8>) -> (r: bool)
    ensures
        r == has_nul(n@),
{
    let mut i: usize = 0;
    while i < n.len()
        invariant
            i <= n@.len(),
            forall|j: int| 0 <= j < i ==> n@[j] != 0,
        decreases n@.len() - i,
    {
        if n[i] == 0 {
            return true;
        }
        i = i + 1;
    }
    false
}

/// Appends to `out` a copy of each of `names` that can be passed as a C
/// string, in order; names holding a NUL byte are left out.
pub fn push_c_names(out: &mut Vec<Vec<u8>>, names: &Vec<Vec<u8>>)
    ensures
        views(final(out)@) == views(old(out)@) + c_names(views(names@)),
{
    let ghost start = views(out@);
    let mut i: usize = 0;
    while i < names.len()
        invariant
            i <= names@.len(),
            views(out@) == start + c_names(views(names@.take(i as int))),
        decreases names@.len() - i,
    {
        let ghost before = views(out@);
        if !holds_nul(&names[i]) {
            out.push(slice_to_vec(names[i].as_slice()));
            assert(views(out@) =~= before.push(names@[i as int]@));
        } else {
            assert(views(out@) =~= before);
        }
        proof {
            let prev = views(names@.take(i as int));
            let cur = views(names@.take(i + 1));
            assert(cur.drop_last() =~= prev);
            assert(cur.last() == names@[i as int]@);
            reveal(Seq::filter);
            assert(c_names(cur) == if is_c_name(cur.last()) {
                c_names(prev).push(cur.last())
            } else {
                c_names(prev)
            });
        }
        i = i + 1;
        assert(views(out@) =~= start + c_names(views(names@.take(i as int))));
    }
    assert(names@.take(i as int) =~= names@);
}

/// The extensions requested at XR instance creation: Vulkan enablement and
/// Android instance creation, then the caller's own, in order and without
/// removing duplicates. A caller's name that holds a NUL byte cannot be passed
/// to the runtime and is left out.
pub fn xr_instance_extensions(extra: &Vec<Vec<u8>>) -> (r: Vec<Vec<u8>>)
    ensures
        views(r@) == seq![XR_VULKAN_ENABLE.spec_bytes(), XR_ANDROID_CREATE_INSTANCE.spec_bytes()]
            + c_names(views(extra@)),
{
    let mut r: Vec<Vec<u8>> = Vec::new();
    r.push(name_bytes(XR_VULKAN_ENABLE));
    r.push(name_bytes(XR_ANDROID_CREATE_INSTANCE));
    assert(views(r@) =~= seq![XR_VULKAN_ENABLE.spec_bytes(), XR_ANDROID_CREATE_INSTANCE.spec_bytes()]);
    push_c_names(&mut r, extra);
    r
}

/// The extensions requested at Vulkan instance creation: debug reporting,
/// then those the runtime requires, in order.
pub fn vulkan_instance_extensions(required: &Vec<Vec<u8>>) -> (r: Vec<Vec<u8>>)
    ensures
        views(r@) == seq![VK_DEBUG_REPORT.spec_bytes()]
            + c_names(views(required@)),
{
    let mut r: Vec<Vec<u8>> = Vec::new();
    r.push(name_bytes(VK_DEBUG_REPORT));
    assert(views(r@) =~= seq![VK_DEBUG_REPORT.spec_bytes()]);
    push_c_names(&mut r, required);
    r
}

/// The fixed extensions enabled on the logical device.
pub fn device_extensions() -> (r: Vec<Vec<u8>>)
    ensures
        views(r@) == seq![
            VK_SWAPCHAIN.spec_bytes(),
            VK_EXTERNAL_MEMORY.spec_bytes(),
            VK_EXTERNAL_MEMORY_FD.spec_bytes(),
        ],
{
    let mut r: Vec<Vec<u8>> = Vec::new();
    r.push(name_bytes(VK_SWAPCHAIN));
    r.push(name_bytes(VK_EXTERNAL_MEMORY));
    r.push(name_bytes(VK_EXTERNAL_MEMORY_FD));
    assert(views(r@) =~= seq![
        VK_SWAPCHAIN.spec_bytes(),
        VK_EXTERNAL_MEMORY.spec_bytes(),
        VK_EXTERNAL_MEMORY_FD.spec_bytes(),
    ]);
    r
}

} // verus!
