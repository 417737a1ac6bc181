//! The weeb.sh image service behind the `weeb` commands.

use vstd::prelude::*;

verus! {

/// The weeb.sh request for a random image of `kind`, with the channel's NSFW
/// flag written as `true` or `false`.
pub open spec fn weeb_image_url_text(kind: Seq<char>, nsfw: bool) -> Seq<char> {
    "https://api-v2.weeb.sh/images/random?type="@ + kind + "&nsfw="@ + if nsfw {
        "true"@
    } else {
        "false"@
    }
}

/// The weeb.sh request URL for a random image of `kind`.
pub fn weeb_image_url(kind: &str, nsfw: bool) -> (r: String)
    ensures
        r@ == weeb_image_url_text(kind@, nsfw),
{
    let mut url = String::new();
    url.append("https://api-v2.weeb.sh/images/random?type=");
    url.append(kind);
    url.append("&nsfw=");
    if nsfw {
        url.append("true");
    } else {
        url.append("false");
    }
    url
}

} // verus!
