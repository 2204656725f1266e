//! The ASCII art the labyrinth mini-game draws its rooms, enemies and items
//! with.

use vstd::prelude::*;

verus! {

pub const ALL_DIRECTIONS: &'static str = "
                
            \\                   /
             \\                 /
              \\               / 
              |              / 
              |__            |
              | |\\         __|
              | | \\      /|  |
              | |  \\    / |  |
              | |   \\__|  |  |
              | |   |__|  |  |
              | |   /  |  |  |
              | |  /    \\ |  |
              | | /      \\|  |
              |_|/        |__|
              |              |
              |              | 
              /              \\ 
             /                \\ 
            /                  \\
";

pub const FRONT: &'static str = "
                
            \\                  /
             \\                /
              \\              / 
               \\            / 
                \\          /   
                |\\        /|
                | \\      / |
                |  \\    /  |
                |   \\__|   |
                |   |__|   |
                |   /  |   |
                |  /    \\  |
                | /      \\ |
                |/        \\|
                /          \\  
               /            \\ 
              /              \\ 
             /                \\ 
            /                  \\
";

pub const LEFT_FRONT: &'static str = "
                
            \\                  /
             \\                /
              \\              / 
              |             / 
              |__          / 
              | |\\        /
              | | \\      /  
              | |  \\    /   
              | |   \\__|    
              | |   |__|    
              | |   /  |    
              | |  /    \\   
              | | /      \\  
              |_|/        \\
              |            \\
              |             \\ 
              /              \\ 
             /                \\ 
            /                  \\
";

pub const RIGHT_FRONT: &'static str = "
                
            \\                   /
             \\                 /
              \\               / 
               \\             / 
                \\            |
                 \\         __|
                  \\      /|  |
                   \\    / |  |
                    \\__|  |  |
                    |__|  |  |
                    /  |  |  |
                   /    \\ |  |
                  /      \\|  |
                 /        |__|
                /            |
               /             | 
              /              \\ 
             /                \\ 
            /                  \\
";

pub const LEFT: &'static str = "
                
            \\                  /
             \\                /
              \\              / 
              |             / 
              |____________/ 
              |            |
              |            | 
              |            | 
              |            | 
              |            | 
              |            | 
              |            | 
              |            | 
              |____________|
              |            \\
              |             \\ 
              /              \\ 
             /                \\ 
            /                  \\
";

pub const RIGHT: &'static str = "
                
            \\                   /
             \\                 /
              \\               / 
               \\             / 
                \\            |
                 \\___________|
                 |           |
                 |           |
                 |           |
                 |           |
                 |           |
                 |           |
                 |           |
                 |___________|
                /            |
               /             | 
              /              \\ 
             /                \\ 
            /                  \\
";

pub const RAT: &'static str = "
       _     __,..---''-._                 ';-,
'    _/_),-\"'             '-.                '\\\\\\
\\|.-\"'    -_)                 '.                ||
/'   a   ,                      \\              .'/
'.___,__/                 .-'    \\_        _.-'.'
  |\\  \\      \\         /'        _'\"\"\"\"\"\"'_.-'
     _/;--._, >        |   --.__/ '\"\"\"\"\"\"'
   (((-'  __//''-......-;\\      )
        (((-'       __//  '--. /
                  (((-'    __//
                         (((-'
";

pub const BAT: &'static str = "
....._      
 '.   ''-.                               .-----.._
   ',     '-.                          .:      /'
     :       '\"..                 ..-''       :
     /   ...--:::'n            n.'::...       :
     ':''      .' ::          /  '.     ''---..:.
       '\\    .'  ._:   .-:   ::    '.     .-''
         :  :    :_\\\\_/: :  .::      '.  /
         : /      \\-../:/_.'-'         \\ :
         :: _.._  q' p ' /'             \\|
         :-'    ''(_. ..-----hh''''''/-._:
                     ':      ''     /     '
                     E:            /
                      :          _/
                      :    _..-''
                      l--''
";

pub const CHEST: &'static str = "
                             _.--.
                         _.-'_:-'||
                    _.-'_.-::::'||
               _.-:'_.-::::::'  ||
             .''-.-:::::::'     ||
            /.'';|:::::::'      ||_
           ||   ||::::::'     _.;._'-._
           ||   ||:::::'  _.-!oo @.!-._'-.
           \'.  ||:::::.-!()oo @!()@.-'_.|
            '.'-;|:.-'.&$@.& ()$%-'o.'\\U||
              '>'-.!@%()@'@_%-'_.-o _.|'||
               ||-._'-.@.-'_.-' _.-o  |'||
               ||=[ '-._.-\\U/.-'    o |'||
               || '-.]=|| |'|      o  |'||
               ||      || |'|        _| ';
               ||      || |'|    _.-'_.-'
               |'-._   || |'|_.-'_.-'
                '-._'-.|| |' '_.-'
                    '-.||_/.-'
";

pub const KEY: &'static str = "
        8 8 8 8                     ,ooo.
        8a8 8a8                    oP   ?b
        d888a888zzzzzzzzzzzzzzzzzzzz8     8b
        '\"\" \"\"'                    ?o___oP'
";

pub const SWORD: &'static str = "
              />
 ()          //---------------------------------------------------------(
(*)OXOXOXOXO(*>                                                          \\
 ()          \\\\-----------------------------------------------------------)
              \\>
";

pub const KNIGHT: &'static str = "
          / \
          | |
          |.|
          |.|
          |:|      __
        ,_|:|_,   /  )
          (Oo    / _I_
           +\\ \\  || __|
              \\ \\||___|
                \\ /.:.\\-\\
                 |.:. /-----\\
                 |___|::oOo::|
                 /   |:<_T_>:|
                |_____\\ ::: /
                 | |  \\ \\:/
                 | |   | |
                 \\ /   | \\___
                 / |   \\_____\\
                 '-'
";

pub const BOSS: &'static str = "
              __.......__
            .-:::::::::::::-.
          .:::''':::::::''':::.
        .:::'     ':::'     ':::. 
   .'\\  ::'   ^^^  ':'  ^^^   '::  /'.
  :   \\ ::   _.__       __._   :: /   ;
 :     \\': .' ___\\     /___ '. :'/     ; 
:       /\\   (_|_)\\   /(_|_)   /\\       ;
:      / .\\   __.' ) ( '.__   /. \\      ;
:      \\ (        {   }        ) /      ; 
 :      '-(     .  ^\"^  .     )-'      ;
  '.       \\  .'<'-._.-'>'.  /       .'
    '.      \\    \\;'.';/    /      .'
      '._    '-._       _.-'    _.'
       .''-.__ .''-._.-''. __.-''.
     .'       '.         .'       '.
   .'           '-.   .-'           '.
";

} // verus!
