//! Locale tags.
//!
//! A locale is at most five bytes long, so only a few shapes of language tag can occur: a language
//! of two or three letters, a language and a region, a private-use tag and a handful of registered
//! irregular tags. The subtag registry decides which languages and regions there are; a tag that
//! is well formed but not registered is no locale. The tables are fixed: what is registered later
//! is not in them.

use vstd::prelude::*;

use crate::pattern::lower_digit_char;
use crate::text::{byte_len, from_chars, same, split_at_char, to_chars};
use crate::utils::to_lower;

verus! {

/// Greatest number of bytes of a locale.
pub const USER_LOCALE_MAX_LENGTH: usize = 5;

/// Registered irregular tags, with either separator.
pub const IRREGULAR_TAGS: &'static str = "i-ami i-bnn i-hak i-lux i-pwn i-tao i-tay i-tsu i_ami i_bnn i_hak i_lux i_pwn i_tao i_tay i_tsu";

/// Registered languages of two letters.
pub const LANGUAGES_2: &'static str = "aa ab ae af ak am an ar as av ay az ba be bg bh bi bm bn bo br bs ca ce ch co cr cs cu cv cy da de dv dz ee el en eo es et eu fa ff fi fj fo fr fy ga gd gl gn gu gv ha he hi ho hr ht hu hy hz ia id ie ig ii ik in io is it iu iw ja ji jv jw ka kg ki kj kk kl km kn ko kr ks ku kv kw ky la lb lg li ln lo lt lu lv mg mh mi mk ml mn mo mr ms mt my na nb nd ne ng nl nn no nr nv ny oc oj om or os pa pi pl ps pt qu rm rn ro ru rw sa sc sd se sg sh si sk sl sm sn so sq sr ss st su sv sw ta te tg th ti tk tl tn to tr ts tt tw ty ug uk ur uz ve vi vo wa wo xh yi yo za zh zu";

/// Registered languages of three letters, without the private-use codes `qaa` to `qtz`: those of
/// the registry, and the codes of three letters of the languages above, the terminological and the
/// bibliographic ones. A group is the first two letters of some languages and all the letters that
/// can follow them.
pub const LANGUAGES_3: &'static str = "\
    aaabcdefghiklmnopqrstuvwxz ababcdefghijklmnopqrstuvwxyz acabdefhiklmnpqrstuvwxyz \
    adabdefghijlnopqrstuwxyz aeabcdeklmnqrsuwyz afabdeghiknoprstuz agabcdefghijklmnopqrstuvwxyz \
    ahabghiklmnoprst aiabcdefghijklmnopqrstwxy ajaginpstuwz akabcdefghijklmopqrstuvwxyz \
    alabcdefghijklmnopqrstuvwxyz amabcefghijklmnopqrstuvwxyz anabcdefghijklmnopqrstuvwxyz \
    aoabcdefghijklmnrstuxz apabcdefghijklmnopqrstuvwxyz aqacdgklmnprtz \
    arabcdeghijklmnopqrstuvwxyz asabcdefghijklmnopqrstuvwxyz atabcdeghijklmnopqrstuvwxyz \
    auabcdefghijklmnopqrstuwxyz avabdeiklmnostuv awabcdeghikmnorstuvwxy axbegklmx \
    ayabcdeghiklmnopqrstuxyz azabcdegjmnotz baabcdefghijklmnopqrstuvwxyz \
    bbabcdefghijklmnopqrstuvwxyz bcabcdefghijklmnopqrstuvwyz bdabcdefghijklmnopqrstuvwxyz \
    beabcdefghijklmnopqrstuvwxyz bfabcdefghijklmnopqrstuwxyz bgabcdefgijklmnopqrstuvwxyz \
    bhabcdefghijklmnopqrstuvwxyz biabcdefghjklmnopqrstuvwxyz bjabcdefghijklmnopqrstuvwxyz \
    bkabcdfghijklmnopqrstuvwxyz blabcdefghijklmnopqrstvwxyz bmabcdefghijklmnopqrstuvwxyz \
    bnabcdefgijklmnopqrstuvwxyz boabdefghijklmnopqrstuvwxyz bpabcdeghijklmnopqrstuvwxyz \
    bqabcdfghijklmnopqrstuvwxyz brabcdefghijklmnopqrstuvwxyz bsabcefghijklmnopqrstuvwxy \
    btabcdefghijklmnopqrstuvwxyz buabcdefghijklmnopqrstuvwxyz bvabcdefghijklmnopqrtuvwxyz \
    bwabcdefghijklmnopqrstuwxyz bxabcdefghijklmnopqrsuvwxz byabcdefghijklmnopqrstvwxyz \
    bzabcdefghijklmnopqrstuvwxyz caabcdefghijklmnopqrstuvwxyz cbabcdeghijklnoqrstuvwy \
    ccacdeghjlmnopqrs cdacdefghijmnorsyz ceabgklnsty cfadgm cgacgk chabcdefghijklmnopqrtuvwxyz \
    ciabcdehkmnprwy cjaehikmnoprsvy ckabhlmnoqrstuvxyz clacdehijklmotuwy cmacegiklmnorst \
    cnabcghiklopqrstuwx coabcdefghjklmnopqrstuvwxyz cpabcefginopsuxy cqdu \
    crabcdefghijklmnopqrstvwxyz csabcdefghijklmnopqrstuvwxyz ctacdeghlmnopstuyz \
    cuabcghijklmopqrstuvwxy cvgn cwabdegt cxh cyabmo czehknot daacdefghijklmnopqrsuvwxyz \
    dbabdefgijlmnopqrtuvwy dccr ddadegijnorsw decdefghiklmnpqrsuvz dgabcdeghiklnorstuwxz \
    dhadgilmnorsuvwx diabcdfghijklmnopqrstuvwxyz djabcdefijklmnoruw dkagklrsx dlgkmn \
    dmabcdefgklmnorsuvwxy dnadegijknortuvwy doabcefhiklnopqrstvwxyz dpp drabcdeghilnoqrstuwy \
    dsbehiklnoqz dtabdhikmnoprstuy duabcdefghijklmnopqrstuvwxyz dva dwaklrsuwyz dyabdgimnoruy \
    dzadeglno eaa ebcgkoru ecrsy eee efaei egalmoxy ehsu eiptv eja ekacegiklmopry elehiklmopux \
    emabegikmnopqsuwxyz enabcdfghlmnoqruvwx eot epio eraghikorstw eseghiklmnoqstuxy \
    etbchnorstuxz eudqs evehn eweo ext eyao ezae faabdfghijklmnoprstuxyz fbl fcs fer ffim fgr \
    fiaefjlnprtuw fkkv flahilnry fmpu fnbgi fodimnrsx fpe fqs fracdekmopqrsty fsels \
    fubcdefhijlmnqrtuvy fvr fwae gaabcdefghijklmnopqrstuvwxyz gbabcdefghijklmnopqrsuvwxyz \
    gccdeflnrt gdabcdefghijklmnoqrstux geabcdfghijklmoqrsvwxyz gfktx ggabdegklnortuw \
    ghacehklnorst giabcdeghilmnopqrstuwxyz gjikmnru gkadenopu glabcdeghijkloruvwy \
    gmabdeghlmnqruvwxyz gnabcdeghijklmnoqrtuwz goabcdefghijklmnopqrstuvwxyz gpaen gqainru \
    grabcdeghijkmnoqrstuvwxyz gseglmnopsw gtaiu guabcdefghijklmnopqrstuvwxz gvacefjlmnoprsy \
    gwabcdefgijmnrtuwx gxx gyabdefgilmnoryz gzain haabcdefghijklmnopqrstuvwxyz hbabnosu hcah \
    hdnsy heabdghimr hgmw hhiry hiabdfghijklmnortwx hji hkaehkns hlabdetu \
    hmabcdefghijklmnopqrstuvwxyz hnadeghijnosu hoabcdehijklmoprstvwyz hpos hracekmoprtuvwxz \
    hsbhlns htiosux hubcdefghijklmnopqrstuvwxyz hvceknv hwaco hyaewx iainpr ibabdeghilmnoruy \
    icaehlr idabcdeiorstu ifabefkmuy igbeglmnosw ihbipw iiinr ijcejnos ikehikloprstuvwxz \
    ilabegiklmopsuvw imaeilnorsty inabcdeghjlmnopstz ioruw ipiko iquw iraehiknoruxy \
    isacdeghiklmnortu itabcdeiklmorstvwxyz ium ivbv iwkmos ixcl iyaox izhimrz \
    jaabcdefhjklmnoqrstuvxyz jbeijkmnortuw jcst jdagt jebeghiklnrtu jgbeko jhis \
    jiabcdeghilmoqtuvy jjer jkamoprsu jles jmabcdilnrswx jnadgijls jobdgrsw jpanrx jqr jrabrtu \
    jsl juabcdhiklmnoprstuwy jvdn jwi jyaey kaabcdefghijklmnopqrstuvwxyz \
    kbabcdefghijklmnopqrstuvwxyz kcabcdefghijklmnopqrstuvwxyz kdacdefghijklmnopqrtuvwxyz \
    keabcdefghijklmnopqrstuvwxyz kfabcdefghijklmnopqrstuvwxyz kgabcdefghijklmnopqrstuvwxy \
    khabcdefghijklmnopqrstuvwxyz kiabcdefghijklmnopqrstuvwxyz kjabcdefghijklmnopqrstuvxyz \
    kkabcdefghijklmnopqrstuvwxyz klabcdefghijklmnopqrstuvwxyz kmabcdefghijklmnopqrstuvwxyz \
    knabcdefgijklmnopqrstuvwxyz koacdefghijklmnopqrstuvwxyz kpabcdefghijklmnopqrstuvwxyz \
    kqabcdefghijklmnopqrstuvwxyz krabcdefhijklmnoprstuvwxyz ksabcdefghijklmnopqrstuvwxyz \
    ktabcdefghijklmnopqrstuvwxyz kuabcdefghijklmnopqrstuvwxyz kvabcdefghijklmnopqrstuvwxyz \
    kwabcdefghijklmnopqrstuvwxyz kxabcdefhijklmnopqrstuvwxyz kyabcdefghijklmnopqrstuvwxyz \
    kzabcdefghijklmnopqrstuvwxyz laabcdefghijklmnopqrstuvwxyz lbabcefgijklmnoqrstuvwxyz \
    lccdefhlmpqs ldabdghijklmnopq leabcdefghijklmnopqrstuvwxyz lfan lgabghiklmnoqrstuz \
    lhahilmnpstu liabcdefghijklmnopqrstuvwxyz ljaeilpwx lkabcdehijlmnorstuy \
    llabcdefghijklmnopqsux lmabcdefghijklmnopqruvwxyz lnabdghijlmnosuwz \
    loabcefghijklmnopqrstuvwxyz lpaenox lracegiklmnortvz lsabcdeghilmnoprstvwy ltcghinosuz \
    luabcdefgijklmnopqrstuvwyz lvaiklsu lwaeghlmostuw lxm lyagn lzhlnz \
    maabcdefghijklmnopqrstuvwxyz mbabcdefhijklmnopqrstuvwxyz mcabcdefghijklmnopqrstuvwxyz \
    mdabcdefghijklmnpqrstuvwxyz meabcdefghijklmnopqrstuvwyz mfabcdefghijklmnopqrstuvwxyz \
    mgabcdefghijklmnopqrstuvwxyz mhabcdefghijklmnopqrstuwxyz miabcdefghijklmnopqrstuwxyz \
    mjabcdeghijklmnopqrstuvwxyz mkabcdefghijklmnopqrstuvwxyz mlabcdefghijklmnopqrstuvwxz \
    mmabcdefghijklmnopqrtuvwxyz mnabcdefghijklmnopqrstuvwxyz moacdefghijklmnopqrstuvwxyz \
    mpabcdeghijklmnopqrstuvwxyz mqabcefghijklmnopqrstuvwxyz mrabcdefghijklmnopqrstuvwxyz \
    msabcdefghijklmnopqrstuvwxyz mtabcdefghijklmnopqrstuvwxy muabcdeghijklmnopqrstuvxyz \
    mvabdefghiklmnopqrstuvwxyz mwabcdefghijklmnopqrstuvwxyz mxabcdefghijklmnopqrstuvwxyz \
    myabcdefghijklmnopqrstuvwxyz mzabcdeghijklmnopqrstuvwxyz naabcdefghijklmnopqrstuvwxyz \
    nbabcdefghijklmnopqrstuvwxy ncabcdefghijklmnopqrstuxz ndabcdefghijklmnopqrstuvwxyz \
    neabcdefghijkmnopqrstuvwxyz nfadlru ngabcdefghijklmnopqrstuvwxyz nhabcdefghikmnopqrtuvwxyz \
    niabcdefghijklmnoqrstuvwxyz njabdhijlmnorstuxyz nkabcdefghijkmnopqrstuvwxz \
    nlacdegijklmnoqruvwxyz nmabcdefghijklmnopqrstuvwxyz nnabcdefghijklmnopqrstuvwxyz \
    noabcdefghijklmnopqrstuvwyz npabghilnosuxy nqgklmnoqty nrabcefgiklmnprtuxz \
    nsabcdefghiklmnopqrstuvwxyz ntdegijkmoprsuwxyz nuabcdefghijklmnopqrstuvwxyz nvhmo \
    nwabcegimorwxy nxadegiklmnoqrux nyabcdefghijklmnopqrstuvwxy nzabdikmrsuyz oaacrv obiklmortu \
    ocahimou odaktu ofosu ogbcegou ohtu oiaen ojbcgipsvw okabcdeghijklmnorsuvxz oladekmortu \
    omabcegiklnopqrtuvwxy onabegijknoprstuwx oodgnrs opakmoty oraceghimnorstuvwxyz osacinopstux \
    otabdeiklmnoqrstuwxyz ouabeimn ovd owil oybdmy ozm paabcdefghiklmnopqrstuvwxyz \
    pbbcefghilmnoprstuvyz pcabcdefghijklmnprw pdacinotu peabdefghijklmopqrsvxyz pfael \
    pgadgiklnsuyz phadghijklmnoqrtuvw piabcdefghijlmnoprstuvwxyz pjt pkabcghnoprstu \
    plabcdefghijklnopqrstuvwyz pmabcdefhijklmnoqrstuwxyz pnabcdeghijklmnopqrstuvwxyz \
    pocdefghiklmnopqrstvwxyz ppaeiklmnopqrstu pqaemw prabcdefghiklmnopqrstuwxyz \
    psacdeghilmnopqrstuwy ptahinopqrtuvwy puabcdefgijkmopqrstuwxyz pwabgimnorw pxm pyemnsuxy \
    pzehn quabcdefghiklmnpqrsvwxyz qvacehijlmnopswyz qwacehmst qxachlnopqrstuw qyap \
    raabcdfghijklmnopqrstuvwxyz rbbklp rcf rdb reabegijlmnrsty rgaeknrsu rhgp riabeflmnrtu rjgis \
    rkabhimtw rmabcdefghiklmnopqrstuvwxyz rnabdglnprw roabcdefghlmnopruw rpnt rrimot rsbiklmnw \
    rtchmsw rubcefghikmnopqstuyz rwaklmor rxdw rynsu rzh saabcdefghijklmnopqrstuvwxyz \
    sbabcdefghijklmnopqrstuvwxyz scabefghiklnopqstuvwx sdabcefghjklmnopqrstuvxz \
    seabcdefghijklmnopqrstuvwyz sfbemsw sgabcdeghijklmnoprstuwxyz shabcdeghijklmnopqrstuvwxyz \
    siabdefghijklmnopqrstuvwxyz sjabdegklmnoprstuw skabcdefghijkmnopqrstuvwxyz \
    slacdefghijklmnopqrstuvwxyz smabcdefghijklmnopqrstuvwxyz snabcdefghijklmnopqrsuvwxyz \
    soabcdeghijklmnopqrstuvwxyz spabcdegiklmnopqrstuvxy sqahijkmnoqrstux \
    srabcdefghiklmnopqrstuvwxyz ssabcdefghijklmnopqrstuvwxyz stabdefghijklmnopqrstuvwy \
    suabcegijklmnoqrstvwxyz svabcekmrsx swabcefghijklmnopqrstuvwxy sxbcegklmnorsuw \
    syabcdiklmnorswxy szabcdeglnpsvwy taabcdefghijklmnopqrstuvwxyz tbabcdefghijklmnopqrstuvwxyz \
    tcabcdefghiklmnopqstuwxyz tdabcdefghijklmnoqrstuvxy teabcdefghiklmnopqrstuvwxyz tfinort \
    tgabcdefghijklnopqrstuvwxyz thacdefhiklmnpqrstuvwxyz tiabcdefghijklmnopqrstuvwxyz \
    tjagijlmnopsuw tkabdefgklmnpqrstuvwxz tlabcdfghijklmnopqrstuvwxy tmabcdefghijklmnopqrstuvwyz \
    tnabcdefghiklmnopqrstuvwxyz tobcdefghijklmnopqrsuvwxyz tpacefgijklmnopqrtuvwxyz \
    tqblmnopqrtuw trabcdefghijklmnopqrstuvwxyz tsabcdefghijklmnopqrstuvwxyz \
    ttabcdefghijklmnopqrstuvwyz tuabcdefghijklmnopqrstuvwxyz tvadeiklmnostuwxy \
    twabcdefghilmnopqrtuwxy txabceghijmnoqrstuxy tyaehijlnprstuvxyz tzahjlmnox uamnr ubailruy \
    udaegijlmu ues ufi ugabehnoy uhan uigsv uji ukaghiklpqrsuvwy ulabcefiklmnuwy umabcdgimnoprsu \
    unadegikmnpruxz uokn upiv urabcdefghijklmnoprtuvwxyz usahikpsu utaehpru uumnru uvehl uwa uya \
    uzbns vaaefghijlmnoprsuvy vbbk vecdlmnopr vgrt vicdefglnstv vjk vkaijklmnoptuz vlps \
    vmabcdefghijklmpqrsuvwxyz vnkmp volrt vraost vsilv vto vumnt vwa \
    waabcdefghijklmnopqrstuvwxyz wbabefhijklmpqrstvw wcai wddgjktuy weacdghilmnoprstuw wfg \
    wgabgiouwy whagku wibcefghijklmnrtuvwy wjai wkabdlruwy wlaceghiklmnorsuvwxy \
    wmabcdeghimnostwx wnbcdegikmnopuwy woabcdefgiklmnorswy wpc wrabdghiklmnoprsuvwxyz wsagikrsuv \
    wtbfhikmw wuabdhlmnrtuvxy wwaborw wxaw wyabimnry xaabcdegijklmnopqrstuvwy xbabcdegijmnoprwxy \
    xcbceghlmnortuvwy xdackmoqy xebdglmprstu xfa xgabdfgilmnruw xhacdemortuv xiabilnprsvy xjbt \
    xkabcdefghijklnopqrstuvwxyz xlabcdeginopsuy xmabcdefghjklmnopqrstuvwxyz xnabdghijkmnoqrstuyz \
    xocdgikmnoprw xpabcdefghijklmnopqrstuvwxyz xqat xrabdegimnqrtuw xsabcdehijlmnopqrsuvy \
    xtabcdeghijlmnopqrstuvwyz xuabdgjlmnoprtu xveinos xwacdegjklortw xxbkmrt xyabjklty xzhmp \
    yaabcdefghijklmnopqrstuvwxyz ybabdehijklmnoxy ychlnpr ydadegks yeaceijlnrstuvy ygailmprsuw \
    yhadls yiadfghijklmnpqrstuvxyz ykaghiklmnortuy ylabegilmnoruy ymabcdeghiklmnopqrstxz \
    ynadeghklnoqsu yobgiklmnrstxy ypabghkmnopz yrabeiklmnoswy yscdglmnoprsy ytalpwy \
    yuabcdefgijklmnpqrtuwxyz yvat ywaglnqrtuw yxaglmuy yyruz yzgk zaabcdefghijklmopqrstuvwxyz \
    zbaceltuw zcadh zdj zeaghmn zgabhmnr zhabdinowx ziabklmnrwz zkabdghknoprtuvz zlaejmnqsuw \
    zmabcdefghijklmnopqrstuvwxyz znadegks zochmoqrs zpabcdefghijklmnopqrstuvwxyz zqe zragnops \
    zsaklmru zteglmnpqstuxy zuahlmny zwa zxx zybgjnp zzaj";

/// Registered regions of two letters, with those that were withdrawn, the reserved ones and the
/// private-use ones.
pub const REGIONS_2: &'static str = "aa ac ad ae af ag ai al am an ao aq ar as at au aw ax az ba bb bd be bf bg bh bi bj bl bm bn bo bq br bs bt bu bv bw by bz ca cc cd cf cg ch ci ck cl cm cn co cp cq cr cs ct cu cv cw cx cy cz dd de dg dj dk dm do dy dz ea ec ee eg eh er es et eu ez fi fj fk fm fo fq fr fx ga gb gd ge gf gg gh gi gl gm gn gp gq gr gs gt gu gw gy hk hm hn hr ht hu hv ic id ie il im in io iq ir is it je jm jo jp jt ke kg kh ki km kn kp kr kw ky kz la lb lc li lk lr ls lt lu lv ly ma mc md me mf mg mh mi mk ml mm mn mo mp mq mr ms mt mu mv mw mx my mz na nc ne nf ng nh ni nl no np nq nr nt nu nz om pa pc pe pf pg ph pk pl pm pn pr ps pt pu pw py pz qa qm qn qo qp qq qr qs qt qu qv qw qx qy qz re rh ro rs ru rw sa sb sc sd se sg sh si sj sk sl sm sn so sr ss st su sv sx sy sz ta tc td tf tg th tj tk tl tm tn to tp tr tt tv tw tz ua ug uk um un us uy uz va vc vd ve vg vi vn vu wf wk ws xa xb xc xd xe xf xg xh xi xj xk xl xm xn xo xp xq xr xs xt xu xv xw xx xy xz yd ye yt yu za zm zr zw zz";

/// Whether a list of words with single blanks between them holds a word.
pub open spec fn listed(list: Seq<char>, word: Seq<char>) -> bool {
    crate::text::split_on(list, ' ').contains(word)
}

/// Whether a list of words with single blanks between them holds a word.
pub fn is_listed(list: &str, word: &str) -> (r: bool)
    ensures
        r == listed(list@, word@),
{
    let words: Vec<&str> = split_at_char(list, ' ');
    let ghost all = crate::text::split_on(list@, ' ');
    let mut i: usize = 0;
    while i < words.len()
        invariant
            all == crate::text::split_on(list@, ' '),
            crate::text::views(words@) == all,
            all.len() == words@.len(),
            i <= words@.len(),
            forall|j: int| 0 <= j < i ==> all[j] != word@,
        decreases words@.len() - i,
    {
        assert(all[i as int] == words@[i as int]@);
        if same(words[i], word) {
            assert(all.contains(word@));
            return true;
        }
        i = i + 1;
    }
    false
}

/// Whether a word of three letters is in the group that begins at one position of a list, its last
/// letter being at another.
pub open spec fn in_group(list: Seq<char>, word: Seq<char>, start: int, at: int) -> bool {
    &&& 0 <= start && start + 2 <= at < list.len()
    &&& start == 0 || list[start - 1] == ' '
    &&& list[start] == word[0] && list[start + 1] == word[1] && list[at] == word[2]
    &&& forall|i: int| start <= i <= at ==> list[i] != ' '
}

/// Whether a list of groups with single blanks between them holds a word of three letters.
pub open spec fn grouped(list: Seq<char>, word: Seq<char>) -> bool {
    word.len() == 3 && exists|start: int, at: int| in_group(list, word, start, at)
}

fn is_grouped(list: &str, word: &[char]) -> (r: bool)
    requires
        word@.len() == 3,
    ensures
        r == grouped(list@, word@),
{
    let letters: Vec<char> = to_chars(list);
    let n: usize = letters.len();
    let mut start: usize = 0;
    let mut at: usize = 0;
    while at < n
        invariant
            word@.len() == 3,
            letters@ == list@,
            n == letters@.len(),
            start <= at <= n,
            start == 0 || list@[start - 1] == ' ',
            forall|i: int| start <= i < at ==> list@[i] != ' ',
            forall|s: int, e: int| e < at ==> !in_group(list@, word@, s, e),
        decreases n - at,
    {
        if letters[at] == ' ' {
            start = at + 1;
        } else if at - start >= 2 && letters[at] == word[2] && letters[start] == word[0]
            && letters[start + 1] == word[1] {
            assert(in_group(list@, word@, start as int, at as int));
            return true;
        }
        assert forall|s: int, e: int| e < at + 1 implies !in_group(list@, word@, s, e) by {
            if e == at && in_group(list@, word@, s, e) {
                assert(list@[at as int] != ' ');
                assert(s == start) by {
                    if s < start {
                        assert(list@[start - 1] != ' ');
                    }
                    if s > start {
                        assert(list@[s - 1] == ' ');
                    }
                }
            }
        }
        at = at + 1;
    }
    false
}

/// A separator of subtags.
pub open spec fn is_separator(c: char) -> bool {
    c == '-' || c == '_'
}

/// Letters and digits of ASCII.
pub open spec fn is_alphanumeric(c: char) -> bool {
    crate::pattern::is_lower_digit(c) || crate::pattern::is_upper(c)
}

/// What stands behind `x-`: subtags of letters and digits with single separators between them.
pub open spec fn private_subtags(s: Seq<char>) -> bool {
    &&& s.len() > 0
    &&& !is_separator(s[0])
    &&& !is_separator(s.last())
    &&& forall|i: int| 0 <= i < s.len() ==> is_separator(#[trigger] s[i]) || is_alphanumeric(s[i])
    &&& forall|i: int| 0 <= i < s.len() - 1 ==> !(is_separator(#[trigger] s[i]) && is_separator(s[i + 1]))
}

/// A language of three letters: a listed one or one of the private-use codes `qaa` to `qtz`.
pub open spec fn language_3(s: Seq<char>) -> bool {
    grouped(LANGUAGES_3@, s) || (s.len() == 3 && s[0] == 'q' && 'a' <= s[1] <= 't'
        && crate::pattern::is_lower(s[2]))
}

/// Whether all characters of `s` are lower-case letters of ASCII.
pub open spec fn all_lower(s: Seq<char>) -> bool {
    forall|i: int| 0 <= i < s.len() ==> crate::pattern::is_lower(#[trigger] s[i])
}

/// A tag, in lower case, that the registry knows.
pub open spec fn known_tag(t: Seq<char>) -> bool {
    if listed(IRREGULAR_TAGS@, t) || t == "root"@ {
        true
    } else if t.len() >= 3 && t[0] == 'x' && is_separator(t[1]) {
        private_subtags(t.skip(2))
    } else if t.len() == 2 {
        all_lower(t) && listed(LANGUAGES_2@, t)
    } else if t.len() == 3 {
        all_lower(t) && language_3(t)
    } else {
        t.len() == 5 && all_lower(t.take(2)) && is_separator(t[2]) && all_lower(t.skip(3)) && listed(
            LANGUAGES_2@,
            t.take(2),
        ) && listed(REGIONS_2@, t.skip(3))
    }
}

/// A locale: none at all, or a known tag of at most five bytes in either case.
pub open spec fn valid_locale(s: Seq<char>) -> bool {
    s.len() == 0 || (crate::text::utf8_len(s) <= USER_LOCALE_MAX_LENGTH && known_tag(
        crate::utils::lower(s),
    ))
}

fn separator(c: char) -> (r: bool)
    ensures
        r == is_separator(c),
{
    c == '-' || c == '_'
}

fn lower_run(chars: &[char], from: usize, to: usize) -> (r: bool)
    requires
        from <= to <= chars@.len(),
    ensures
        r == all_lower(chars@.subrange(from as int, to as int)),
{
    let ghost s = chars@.subrange(from as int, to as int);
    let mut i: usize = from;
    while i < to
        invariant
            from <= i <= to <= chars@.len(),
            s == chars@.subrange(from as int, to as int),
            forall|j: int| 0 <= j < i - from ==> crate::pattern::is_lower(#[trigger] s[j]),
        decreases to - i,
    {
        assert(s[i - from] == chars@[i as int]);
        if !('a' <= chars[i] && chars[i] <= 'z') {
            return false;
        }
        i = i + 1;
    }
    true
}

fn private_tail(chars: &[char]) -> (r: bool)
    requires
        chars@.len() >= 3,
    ensures
        r == private_subtags(chars@.skip(2)),
{
    let ghost s = chars@.skip(2);
    let n: usize = chars.len();
    assert(s.last() == chars@[n - 1]);
    if separator(chars[2]) || separator(chars[n - 1]) {
        return false;
    }
    let mut i: usize = 2;
    while i < n
        invariant
            2 <= i <= n,
            n == chars@.len(),
            s == chars@.skip(2),
            forall|j: int| 0 <= j < i - 2 ==> is_separator(#[trigger] s[j]) || is_alphanumeric(s[j]),
            forall|j: int|
                0 <= j < i - 2 && j < s.len() - 1 ==> !(is_separator(#[trigger] s[j]) && is_separator(
                    s[j + 1],
                )),
        decreases n - i,
    {
        let c: char = chars[i];
        assert(s[i - 2] == c);
        if separator(c) {
            if i + 1 < n && separator(chars[i + 1]) {
                assert(s[i - 2 + 1] == chars@[i + 1]);
                return false;
            }
        } else if !lower_digit_char(c) && !('A' <= c && c <= 'Z') {
            return false;
        }
        i = i + 1;
    }
    true
}

fn is_known_tag(t: &str) -> (r: bool)
    ensures
        r == known_tag(t@),
{
    if is_listed(IRREGULAR_TAGS, t) || same(t, "root") {
        return true;
    }
    let chars: Vec<char> = to_chars(t);
    let n: usize = chars.len();
    if n >= 3 && chars[0] == 'x' && separator(chars[1]) {
        return private_tail(chars.as_slice());
    }
    if n == 2 {
        assert(t@.subrange(0, 2) == t@);
        return lower_run(chars.as_slice(), 0, 2) && is_listed(LANGUAGES_2, t);
    }
    if n == 3 {
        assert(t@.subrange(0, 3) == t@);
        if !lower_run(chars.as_slice(), 0, 3) {
            return false;
        }
        return is_grouped(LANGUAGES_3, chars.as_slice()) || (chars[0] == 'q' && 'a' <= chars[1]
            && chars[1] <= 't' && 'a' <= chars[2] && chars[2] <= 'z');
    }
    if n != 5 {
        return false;
    }
    assert(t@.subrange(0, 2) == t@.take(2));
    assert(t@.subrange(3, 5) == t@.skip(3));
    if !lower_run(chars.as_slice(), 0, 2) || !separator(chars[2]) || !lower_run(chars.as_slice(), 3, 5) {
        return false;
    }
    let language: String = from_chars(chars.as_slice(), 0, 2);
    let region: String = from_chars(chars.as_slice(), 3, 5);
    is_listed(LANGUAGES_2, language.as_str()) && is_listed(REGIONS_2, region.as_str())
}

/// Whether a text is a locale. The empty text is one; the length is counted in bytes and before
/// anything else.
pub fn is_valid_locale(locale: &str) -> (r: bool)
    ensures
        r == valid_locale(locale@),
{
    if locale.is_empty() {
        return true;
    }
    if byte_len(locale) > USER_LOCALE_MAX_LENGTH {
        return false;
    }
    let lowered: String = to_lower(locale);
    is_known_tag(lowered.as_str())
}

/// The case of the letters does not matter to a locale.
pub proof fn case_does_not_matter(a: Seq<char>, b: Seq<char>)
    requires
        crate::utils::lower(a) == crate::utils::lower(b),
        crate::text::utf8_len(a) == crate::text::utf8_len(b),
    ensures
        valid_locale(a) == valid_locale(b),
{
    assert(crate::utils::lower(a).len() == a.len());
    assert(crate::utils::lower(b).len() == b.len());
}

/// No text of more than five bytes is a locale, and the empty text is one.
pub proof fn locales_are_short(s: Seq<char>)
    ensures
        s.len() == 0 ==> valid_locale(s),
        s.len() > 0 && valid_locale(s) ==> crate::text::utf8_len(s) <= 5,
{
}

proof fn small_plain_texts(s: Seq<char>)
    requires
        forall|i: int|
            0 <= i < s.len() ==> 'a' <= #[trigger] s[i] <= 'z' || '0' <= s[i] <= '9' || s[i] == '-'
                || s[i] == '_',
    ensures
        crate::utils::lower(s) == s,
        crate::text::utf8_len(s) == s.len(),
{
    assert(vstd::utf8::is_ascii_chars(s));
    vstd::utf8::is_ascii_chars_encode_utf8(s);
    assert(crate::utils::lower(s) =~= s);
}

/// A registered language of two letters is a locale, alone and with a registered region behind
/// either separator.
pub proof fn languages_may_have_regions(language: Seq<char>, region: Seq<char>, separator: char)
    requires
        language.len() == 2,
        region.len() == 2,
        forall|i: int| 0 <= i < 2 ==> 'a' <= #[trigger] language[i] <= 'z',
        forall|i: int| 0 <= i < 2 ==> 'a' <= #[trigger] region[i] <= 'z',
        separator == '-' || separator == '_',
        crate::text::split_on(LANGUAGES_2@, ' ').contains(language),
        crate::text::split_on(REGIONS_2@, ' ').contains(region),
    ensures
        valid_locale(language),
        valid_locale(language.push(separator) + region),
{
    small_plain_texts(language);
    let t = language.push(separator) + region;
    assert forall|i: int| 0 <= i < t.len() implies 'a' <= #[trigger] t[i] <= 'z' || '0' <= t[i] <= '9'
        || t[i] == '-' || t[i] == '_' by {
        if i < 2 {
            assert(t[i] == language[i]);
        } else if i > 2 {
            assert(t[i] == region[i - 3]);
        }
    }
    small_plain_texts(t);
    assert(t.take(2) =~= language);
    assert(t.skip(3) =~= region);
    assert(t.len() == 5 && t[2] == separator && t[0] == language[0]);
    if t[0] == 'x' {
        assert(t[1] == language[1]);
    }
}

/// The codes `qaa` to `qtz` are locales, and so is `x` with up to three letters and digits behind
/// either separator.
pub proof fn private_codes_are_locales(a: char, b: char, code: Seq<char>, separator: char)
    ensures
        'a' <= a <= 't' && 'a' <= b <= 'z' ==> valid_locale(seq!['q', a, b]),
        (separator == '-' || separator == '_') && 1 <= code.len() <= 3 && (forall|i: int|
            0 <= i < code.len() ==> 'a' <= #[trigger] code[i] <= 'z' || '0' <= code[i] <= '9')
            ==> valid_locale(seq!['x', separator] + code),
{
    if 'a' <= a <= 't' && 'a' <= b <= 'z' {
        let t = seq!['q', a, b];
        small_plain_texts(t);
        assert(all_lower(t));
        assert(language_3(t));
    }
    if (separator == '-' || separator == '_') && 1 <= code.len() <= 3 && (forall|i: int|
        0 <= i < code.len() ==> 'a' <= #[trigger] code[i] <= 'z' || '0' <= code[i] <= '9') {
        let t = seq!['x', separator] + code;
        assert forall|i: int| 0 <= i < t.len() implies 'a' <= #[trigger] t[i] <= 'z' || '0' <= t[i] <= '9'
            || t[i] == '-' || t[i] == '_' by {
            if i >= 2 {
                assert(t[i] == code[i - 2]);
            }
        }
        small_plain_texts(t);
        assert(t.skip(2) =~= code);
        assert(code.last() == code[code.len() - 1]);
        assert(private_subtags(code));
    }
}

/// A group of languages holds its first two letters with each letter behind them, and nothing that
/// begins otherwise.
pub proof fn groups_hold_their_languages(group: Seq<char>, word: Seq<char>)
    requires
        group.len() >= 3,
        forall|i: int| 0 <= i < group.len() ==> #[trigger] group[i] != ' ',
        word.len() == 3,
    ensures
        grouped(group, word) == (word[0] == group[0] && word[1] == group[1] && group.skip(2).contains(
            word[2],
        )),
{
    let letters = group.skip(2);
    if grouped(group, word) {
        let (start, at) = choose|start: int, at: int| in_group(group, word, start, at);
        if start > 0 {
            assert(group[start - 1] == ' ');
        }
        assert(letters[at - 2] == word[2]);
    }
    if word[0] == group[0] && word[1] == group[1] && letters.contains(word[2]) {
        let i = choose|i: int| 0 <= i < letters.len() && letters[i] == word[2];
        assert(in_group(group, word, 0, i + 2));
    }
}

} // verus!
