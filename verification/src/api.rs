//! The URLs of the All Debrid requests the client makes.
use crate::text::{decimal, decimal_is_injective, decimal_reads_back, decimal_text, digits_value, is_digit};
use vstd::prelude::*;
use vstd::string::StringExecFns;

verus! {

/// Root of version 4 of the All Debrid API.
pub const API: &'static str = "https://api.alldebrid.com/v4";

/// Text of `API`.
pub open spec fn api_root() -> Seq<char> {
    API@
}

/// The request that reads the account behind `apikey`.
pub open spec fn user_info_url(apikey: Seq<char>) -> Seq<char> {
    api_root() + "/user?agent=cli&apikey="@ + apikey
}

/// The request that unlocks the premium `link`.
pub open spec fn link_unlock_url(apikey: Seq<char>, link: Seq<char>) -> Seq<char> {
    api_root() + "/link/unlock?agent=cli&apikey="@ + apikey + "&link="@ + link
}

/// The request that uploads `magnet`.
pub open spec fn magnet_upload_url(apikey: Seq<char>, magnet: Seq<char>) -> Seq<char> {
    api_root() + "/magnet/upload?agent=cli&apikey="@ + apikey + "&magnets[]="@ + magnet
}

/// The request that reads the state of the uploaded magnet `id`.
pub open spec fn magnet_status_url(apikey: Seq<char>, id: nat) -> Seq<char> {
    api_root() + "/magnet/status?agent=cli&apikey="@ + apikey + "&id="@ + decimal(id)
}

/// URL of the request that reads the account behind `apikey`; the service
/// answers with an error when the key is not valid.
pub fn user_info(apikey: &str) -> (url: String)
    ensures
        url@ == user_info_url(apikey@),
{
    let mut url = String::from_str(API);
    url.append("/user?agent=cli&apikey=");
    url.append(apikey);
    url
}

/// URL of the request that unlocks the premium `link` with `apikey`.
pub fn link_unlock(apikey: &str, link: &str) -> (url: String)
    ensures
        url@ == link_unlock_url(apikey@, link@),
{
    let mut url = String::from_str(API);
    url.append("/link/unlock?agent=cli&apikey=");
    url.append(apikey);
    url.append("&link=");
    url.append(link);
    url
}

/// URL of the request that uploads `magnet` with `apikey`.
pub fn magnet_upload(apikey: &str, magnet: &str) -> (url: String)
    ensures
        url@ == magnet_upload_url(apikey@, magnet@),
{
    let mut url = String::from_str(API);
    url.append("/magnet/upload?agent=cli&apikey=");
    url.append(apikey);
    url.append("&magnets[]=");
    url.append(magnet);
    url
}

/// URL of the request that reads the state of the uploaded magnet `id`.
pub fn magnet_status(apikey: &str, id: u64) -> (url: String)
    ensures
        url@ == magnet_status_url(apikey@, id as nat),
{
    let mut url = String::from_str(API);
    url.append("/magnet/status?agent=cli&apikey=");
    url.append(apikey);
    url.append("&id=");
    let number = decimal_text(id);
    url.append(number.as_str());
    url
}

/// With one key, distinct magnets are polled at distinct URLs: the status
/// URL determines the magnet id.
pub proof fn magnet_status_url_determines_id(apikey: Seq<char>, a: nat, b: nat)
    requires
        magnet_status_url(apikey, a) == magnet_status_url(apikey, b),
    ensures
        a == b,
{
    let head = api_root() + "/magnet/status?agent=cli&apikey="@ + apikey + "&id="@;
    let ua = head + decimal(a);
    let ub = head + decimal(b);
    assert(ua == magnet_status_url(apikey, a));
    assert(ub == magnet_status_url(apikey, b));
    assert(ua.subrange(head.len() as int, ua.len() as int) =~= decimal(a));
    assert(ub.subrange(head.len() as int, ub.len() as int) =~= decimal(b));
    decimal_is_injective(a, b);
}

/// The four parts of `a + b + c + d` stand at their places.
proof fn lemma_four_parts(a: Seq<char>, b: Seq<char>, c: Seq<char>, d: Seq<char>)
    ensures
        (a + b + c + d).len() == a.len() + b.len() + c.len() + d.len(),
        (a + b + c + d).subrange(0, a.len() as int) == a,
        (a + b + c + d).subrange(a.len() as int, (a.len() + b.len()) as int) == b,
        (a + b + c + d).subrange(
            (a.len() + b.len()) as int,
            (a.len() + b.len() + c.len()) as int,
        ) == c,
        (a + b + c + d).subrange(
            (a.len() + b.len() + c.len()) as int,
            (a + b + c + d).len() as int,
        ) == d,
{
    let u = a + b + c + d;
    let i: int = a.len() as int;
    let j: int = i + b.len();
    let k: int = j + c.len();
    assert(u.subrange(0, i) =~= a);
    assert(u.subrange(i, j) =~= b);
    assert(u.subrange(j, k) =~= c);
    assert(u.subrange(k, u.len() as int) =~= d);
}

/// The user request is the fixed text of the user endpoint followed by the
/// whole key, and nothing else.
pub proof fn user_info_url_carries_key(apikey: Seq<char>)
    ensures
        user_info_url(apikey) == "https://api.alldebrid.com/v4/user?agent=cli&apikey="@ + apikey,
        user_info_url(apikey).subrange(
            user_info_url(apikey).len() - apikey.len(),
            user_info_url(apikey).len() as int,
        ) == apikey,
{
    reveal_strlit("https://api.alldebrid.com/v4");
    reveal_strlit("/user?agent=cli&apikey=");
    reveal_strlit("https://api.alldebrid.com/v4/user?agent=cli&apikey=");
    let head = "https://api.alldebrid.com/v4/user?agent=cli&apikey="@;
    assert(api_root() + "/user?agent=cli&apikey="@ =~= head);
    let u = head + apikey;
    assert(u.subrange(u.len() - apikey.len(), u.len() as int) =~= apikey);
}

/// The unlock request is the fixed text of the unlock endpoint, the whole
/// key, `&link=` and the whole link, verbatim: the URL ends with the link.
pub proof fn link_unlock_url_carries_link(apikey: Seq<char>, link: Seq<char>)
    ensures
        link_unlock_url(apikey, link) == "https://api.alldebrid.com/v4/link/unlock?agent=cli&apikey="@
            + apikey + "&link="@ + link,
        link_unlock_url(apikey, link).len() == 58 + apikey.len() + 6 + link.len(),
        link_unlock_url(apikey, link).subrange(58, (58 + apikey.len()) as int) == apikey,
        link_unlock_url(apikey, link).subrange(
            link_unlock_url(apikey, link).len() - link.len(),
            link_unlock_url(apikey, link).len() as int,
        ) == link,
{
    reveal_strlit("https://api.alldebrid.com/v4");
    reveal_strlit("/link/unlock?agent=cli&apikey=");
    reveal_strlit("https://api.alldebrid.com/v4/link/unlock?agent=cli&apikey=");
    reveal_strlit("&link=");
    let head = "https://api.alldebrid.com/v4/link/unlock?agent=cli&apikey="@;
    assert(api_root() + "/link/unlock?agent=cli&apikey="@ =~= head);
    assert(head.len() == 58);
    lemma_four_parts(head, apikey, "&link="@, link);
}

/// The upload request is the fixed text of the upload endpoint, the whole
/// key, `&magnets[]=` and the whole magnet, verbatim: the URL ends with the
/// magnet.
pub proof fn magnet_upload_url_carries_magnet(apikey: Seq<char>, magnet: Seq<char>)
    ensures
        magnet_upload_url(apikey, magnet)
            == "https://api.alldebrid.com/v4/magnet/upload?agent=cli&apikey="@ + apikey
            + "&magnets[]="@ + magnet,
        magnet_upload_url(apikey, magnet).len() == 60 + apikey.len() + 11 + magnet.len(),
        magnet_upload_url(apikey, magnet).subrange(60, (60 + apikey.len()) as int) == apikey,
        magnet_upload_url(apikey, magnet).subrange(
            magnet_upload_url(apikey, magnet).len() - magnet.len(),
            magnet_upload_url(apikey, magnet).len() as int,
        ) == magnet,
{
    reveal_strlit("https://api.alldebrid.com/v4");
    reveal_strlit("/magnet/upload?agent=cli&apikey=");
    reveal_strlit("https://api.alldebrid.com/v4/magnet/upload?agent=cli&apikey=");
    reveal_strlit("&magnets[]=");
    let head = "https://api.alldebrid.com/v4/magnet/upload?agent=cli&apikey="@;
    assert(api_root() + "/magnet/upload?agent=cli&apikey="@ =~= head);
    assert(head.len() == 60);
    lemma_four_parts(head, apikey, "&magnets[]="@, magnet);
}

/// The status request is the fixed text of the status endpoint, the whole
/// key and `&id=`, followed by nothing but the decimal numeral of `id`:
/// digits without a leading zero that read back as `id`.
pub proof fn magnet_status_url_ends_with_id(apikey: Seq<char>, id: nat)
    ensures
        magnet_status_url(apikey, id).subrange(0, 60)
            == "https://api.alldebrid.com/v4/magnet/status?agent=cli&apikey="@,
        magnet_status_url(apikey, id).subrange(60, (60 + apikey.len()) as int) == apikey,
        magnet_status_url(apikey, id).subrange((60 + apikey.len()) as int, (64 + apikey.len()) as int) == "&id="@,
        ({
            let digits = magnet_status_url(apikey, id).subrange(
                (64 + apikey.len()) as int,
                magnet_status_url(apikey, id).len() as int,
            );
            &&& digits.len() >= 1
            &&& forall|i: int| 0 <= i < digits.len() ==> is_digit(#[trigger] digits[i])
            &&& (digits.len() == 1 || digits[0] != '0')
            &&& digits_value(digits) == id
        }),
{
    reveal_strlit("https://api.alldebrid.com/v4");
    reveal_strlit("/magnet/status?agent=cli&apikey=");
    reveal_strlit("https://api.alldebrid.com/v4/magnet/status?agent=cli&apikey=");
    reveal_strlit("&id=");
    let head = "https://api.alldebrid.com/v4/magnet/status?agent=cli&apikey="@;
    assert(api_root() + "/magnet/status?agent=cli&apikey="@ =~= head);
    assert(head.len() == 60);
    assert("&id="@.len() == 4);
    lemma_four_parts(head, apikey, "&id="@, decimal(id));
    decimal_reads_back(id);
}

} // verus!
